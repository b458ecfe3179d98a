//! Overflow-checked arithmetic on `i128` amounts.

use super::input_validation::MAX_BPS;
use crate::error::RevoraError;
use vstd::prelude::*;

verus! {

/// Whether a mathematical integer is representable as an `i128`.
pub open spec fn fits_i128(x: int) -> bool {
    i128::MIN <= x <= i128::MAX
}

/// An exact result when it fits in an `i128`, `LimitReached` otherwise.
pub open spec fn checked_result(x: int) -> Result<i128, RevoraError> {
    if fits_i128(x) {
        Ok(x as i128)
    } else {
        Err(RevoraError::LimitReached)
    }
}

/// Integer division rounding toward zero, as `/` does on Rust integers.
pub open spec fn trunc_div(x: int, d: int) -> int {
    let ax = if x < 0 { -x } else { x };
    let ad = if d < 0 { -d } else { d };
    if (x < 0) == (d < 0) {
        ax / ad
    } else {
        -(ax / ad)
    }
}

/// `x` clamped to the range of `i128`.
pub open spec fn clamp_i128(x: int) -> i128 {
    if x > i128::MAX {
        i128::MAX
    } else if x < i128::MIN {
        i128::MIN
    } else {
        x as i128
    }
}

/// What [`safe_add`] returns.
pub open spec fn add_result(a: i128, b: i128) -> Result<i128, RevoraError> {
    checked_result(a + b)
}

/// What [`safe_sub`] returns.
pub open spec fn sub_result(a: i128, b: i128) -> Result<i128, RevoraError> {
    checked_result(a - b)
}

/// What [`safe_mul`] returns.
pub open spec fn mul_result(a: i128, b: i128) -> Result<i128, RevoraError> {
    checked_result(a * b)
}

/// What [`saturating_add`] returns.
pub open spec fn saturating_add_result(a: i128, b: i128) -> i128 {
    clamp_i128(a + b)
}

/// What [`saturating_sub`] returns.
pub open spec fn saturating_sub_result(a: i128, b: i128) -> i128 {
    clamp_i128(a - b)
}

/// What [`safe_div`] returns.
pub open spec fn checked_div_result(a: i128, b: i128) -> Result<i128, RevoraError> {
    if b == 0 {
        Err(RevoraError::LimitReached)
    } else {
        checked_result(trunc_div(a as int, b as int))
    }
}

/// The share of `amount` at `bps` basis points: `amount * bps / 10_000`,
/// rounded down.
pub open spec fn share_of(amount: int, bps: int) -> int {
    amount * bps / (MAX_BPS as int)
}

/// What [`safe_compute_share`] returns: a rate above 10 000 basis points is
/// refused with `InvalidShareBps`, a negative amount with `InvalidAmount`,
/// a product `amount * bps` that does not fit in an `i128` with
/// `LimitReached`; otherwise the share.
pub open spec fn share_result(amount: i128, bps: u32) -> Result<i128, RevoraError> {
    if bps > MAX_BPS {
        Err(RevoraError::InvalidShareBps)
    } else if amount < 0 {
        Err(RevoraError::InvalidAmount)
    } else if !fits_i128(amount * bps) {
        Err(RevoraError::LimitReached)
    } else {
        Ok(share_of(amount as int, bps as int) as i128)
    }
}

/// `a + b`, or `LimitReached` when the sum leaves the range of `i128`.
pub fn safe_add(a: i128, b: i128) -> (r: Result<i128, RevoraError>)
    ensures
        r == add_result(a, b),
{
    match a.checked_add(b) {
        Some(v) => Ok(v),
        None => Err(RevoraError::LimitReached),
    }
}

/// `a - b`, or `LimitReached` when the difference leaves the range of `i128`.
pub fn safe_sub(a: i128, b: i128) -> (r: Result<i128, RevoraError>)
    ensures
        r == sub_result(a, b),
{
    match a.checked_sub(b) {
        Some(v) => Ok(v),
        None => Err(RevoraError::LimitReached),
    }
}

/// `a * b`, or `LimitReached` when the product leaves the range of `i128`.
pub fn safe_mul(a: i128, b: i128) -> (r: Result<i128, RevoraError>)
    ensures
        r == mul_result(a, b),
{
    match a.checked_mul(b) {
        Some(v) => Ok(v),
        None => Err(RevoraError::LimitReached),
    }
}

/// `a / b` rounded toward zero, or `LimitReached` when `b` is zero or the
/// quotient leaves the range of `i128` (`i128::MIN / -1`).
pub fn safe_div(a: i128, b: i128) -> (r: Result<i128, RevoraError>)
    ensures
        r == checked_div_result(a, b),
{
    match a.checked_div(b) {
        Some(v) => Ok(v),
        None => Err(RevoraError::LimitReached),
    }
}

/// `a + b` clamped to the range of `i128`.
pub fn saturating_add(a: i128, b: i128) -> (r: i128)
    ensures
        r == saturating_add_result(a, b),
{
    match a.checked_add(b) {
        Some(v) => v,
        None => if b > 0 {
            i128::MAX
        } else {
            i128::MIN
        },
    }
}

/// `a - b` clamped to the range of `i128`.
pub fn saturating_sub(a: i128, b: i128) -> (r: i128)
    ensures
        r == saturating_sub_result(a, b),
{
    match a.checked_sub(b) {
        Some(v) => v,
        None => if b < 0 {
            i128::MAX
        } else {
            i128::MIN
        },
    }
}

/// `amount * bps / 10_000` rounded down, for a non-negative amount and a
/// rate of at most 100%; the product is checked for overflow.
/// A product that fits is always computed: `safe_compute_share(i128::MAX, 1)`
/// returns `Ok(i128::MAX / 10_000)`, not `LimitReached`.
pub fn safe_compute_share(amount: i128, bps: u32) -> (r: Result<i128, RevoraError>)
    ensures
        r == share_result(amount, bps),
{
    if bps > MAX_BPS {
        return Err(RevoraError::InvalidShareBps);
    }
    if amount < 0 {
        return Err(RevoraError::InvalidAmount);
    }
    let wide_bps: i128 = bps as i128;
    match amount.checked_mul(wide_bps) {
        Some(product) => {
            let divisor: i128 = 10_000;
            match product.checked_div(divisor) {
                Some(share) => Ok(share),
                None => Err(RevoraError::LimitReached),
            }
        },
        None => Err(RevoraError::LimitReached),
    }
}

/// A share is never negative and never exceeds the amount it is taken
/// from; and for a non-negative amount at a rate of at most 100% it is
/// computed whenever the product `amount * bps` fits in an `i128`.
pub proof fn lemma_share_bounded(amount: i128, bps: u32)
    ensures
        share_result(amount, bps) matches Ok(v) ==> 0 <= v <= amount,
        (amount >= 0 && bps <= MAX_BPS && fits_i128(amount * bps)) ==> share_result(amount, bps) is Ok,
{
    if amount >= 0 && bps <= MAX_BPS {
        let p = amount * bps;
        assert(0 <= p <= amount * 10_000) by (nonlinear_arith)
            requires
                amount >= 0,
                bps <= 10_000,
                p == amount * bps,
        ;
        assert(p / 10_000 <= amount) by (nonlinear_arith)
            requires
                0 <= p <= amount * 10_000,
        ;
    }
}

/// A rate of 100% hands out the whole amount and a rate of 0% hands out
/// nothing.
pub proof fn lemma_share_full_and_empty(amount: i128)
    requires
        amount >= 0,
    ensures
        fits_i128(amount * 10_000) ==> share_result(amount, MAX_BPS) == Ok::<i128, RevoraError>(amount),
        share_result(amount, 0) == Ok::<i128, RevoraError>(0),
{
    let p = amount * 10_000;
    assert(p / 10_000 == amount) by (nonlinear_arith)
        requires
            p == amount * 10_000,
    ;
}

/// Subtraction undoes a successful addition.
pub proof fn lemma_sub_undoes_add(a: i128, b: i128)
    ensures
        checked_result(a + b) matches Ok(c) ==> checked_result(c - b) == Ok::<i128, RevoraError>(a),
{
}

/// Saturating addition agrees with checked addition whenever the latter
/// succeeds, and clamps toward the sign of `b` when it overflows.
pub proof fn lemma_saturating_add_agrees(a: i128, b: i128)
    ensures
        checked_result(a + b) matches Ok(c) ==> clamp_i128(a + b) == c,
        checked_result(a + b) is Err ==> clamp_i128(a + b) == (if b > 0 {
            i128::MAX
        } else {
            i128::MIN
        }),
{
}

/// Saturating subtraction agrees with checked subtraction whenever the
/// latter succeeds, and clamps against the sign of `b` when it overflows.
pub proof fn lemma_saturating_sub_agrees(a: i128, b: i128)
    ensures
        checked_result(a - b) matches Ok(c) ==> clamp_i128(a - b) == c,
        checked_result(a - b) is Err ==> clamp_i128(a - b) == (if b < 0 {
            i128::MAX
        } else {
            i128::MIN
        }),
{
}

/// Division by zero is always refused, and dividing by one returns the
/// dividend.
pub proof fn lemma_div_by_zero_and_one(a: i128)
    ensures
        checked_div_result(a, 0) == Err::<i128, RevoraError>(RevoraError::LimitReached),
        checked_div_result(a, 1) == Ok::<i128, RevoraError>(a),
{
}

/// The share is exactly `amount * bps / 10_000` rounded down, at every rate
/// from 0% to 100% and every non-negative amount whose product with the rate
/// fits in an `i128`; a rate above 100% is refused with `InvalidShareBps`, a
/// negative amount with `InvalidAmount`, and an overflowing product with
/// `LimitReached`.
pub proof fn lemma_share_exact(amount: i128, bps: u32)
    ensures
        bps > 10_000 ==> share_result(amount, bps) == Err::<i128, RevoraError>(
            RevoraError::InvalidShareBps,
        ),
        bps <= 10_000 && amount < 0 ==> share_result(amount, bps) == Err::<i128, RevoraError>(
            RevoraError::InvalidAmount,
        ),
        bps <= 10_000 && amount >= 0 && amount * bps > i128::MAX ==> share_result(amount, bps)
            == Err::<i128, RevoraError>(RevoraError::LimitReached),
        bps <= 10_000 && amount >= 0 && amount * bps <= i128::MAX ==> share_result(amount, bps)
            == Ok::<i128, RevoraError>((amount * bps / 10_000) as i128),
{
    if bps <= 10_000 && amount >= 0 {
        assert(amount * bps >= 0) by (nonlinear_arith)
            requires
                amount >= 0,
                bps >= 0,
        ;
    }
}

/// The share grows with the rate: of the same amount, a higher rate never
/// yields a smaller share.
pub proof fn lemma_share_monotone_in_bps(amount: i128, low: u32, high: u32)
    requires
        low <= high,
    ensures
        share_result(amount, low) matches Ok(v) ==> (share_result(amount, high) matches Ok(w)
            ==> v <= w),
{
    if share_result(amount, low) is Ok && share_result(amount, high) is Ok {
        assert(amount * low <= amount * high) by (nonlinear_arith)
            requires
                amount >= 0,
                low <= high,
        ;
        assert(amount * low / 10_000 <= amount * high / 10_000) by (nonlinear_arith)
            requires
                amount * low <= amount * high,
        ;
    }
}

/// Checked addition, subtraction and multiplication return the exact
/// mathematical result exactly when it lies in the range of `i128`, and
/// `LimitReached` otherwise.
pub proof fn lemma_checked_arithmetic_exact(a: i128, b: i128)
    ensures
        i128::MIN <= a + b <= i128::MAX ==> add_result(a, b) == Ok::<i128, RevoraError>(
            (a + b) as i128,
        ),
        !(i128::MIN <= a + b <= i128::MAX) ==> add_result(a, b) == Err::<i128, RevoraError>(
            RevoraError::LimitReached,
        ),
        i128::MIN <= a - b <= i128::MAX ==> sub_result(a, b) == Ok::<i128, RevoraError>(
            (a - b) as i128,
        ),
        !(i128::MIN <= a - b <= i128::MAX) ==> sub_result(a, b) == Err::<i128, RevoraError>(
            RevoraError::LimitReached,
        ),
        i128::MIN <= a * b <= i128::MAX ==> mul_result(a, b) == Ok::<i128, RevoraError>(
            (a * b) as i128,
        ),
        !(i128::MIN <= a * b <= i128::MAX) ==> mul_result(a, b) == Err::<i128, RevoraError>(
            RevoraError::LimitReached,
        ),
{
}

/// Division rounds toward zero in every sign case, refuses a zero divisor,
/// and refuses `i128::MIN / -1`, whose quotient does not fit.
pub proof fn lemma_div_exact(a: i128, b: i128)
    ensures
        b == 0 ==> checked_div_result(a, b) == Err::<i128, RevoraError>(RevoraError::LimitReached),
        a >= 0 && b > 0 ==> checked_div_result(a, b) == Ok::<i128, RevoraError>(((a as int) / (b as int)) as i128),
        a < 0 && b > 0 ==> checked_div_result(a, b) == Ok::<i128, RevoraError>(
            (-((-(a as int)) / (b as int))) as i128,
        ),
        a >= 0 && b < 0 ==> checked_div_result(a, b) == Ok::<i128, RevoraError>(
            (-((a as int) / (-(b as int)))) as i128,
        ),
        a < 0 && b < 0 && !(a == i128::MIN && b == -1) ==> checked_div_result(a, b) == Ok::<
            i128,
            RevoraError,
        >(((-(a as int)) / (-(b as int))) as i128),
        a == i128::MIN && b == -1 ==> checked_div_result(a, b) == Err::<i128, RevoraError>(
            RevoraError::LimitReached,
        ),
{
    if b != 0 {
        let q = trunc_div(a as int, b as int);
        if a >= 0 && b > 0 {
            assert(0 <= (a as int) / (b as int) <= a) by (nonlinear_arith)
                requires
                    a >= 0,
                    b > 0,
            ;
        } else if a < 0 && b > 0 {
            assert(0 <= (-(a as int)) / (b as int) <= -(a as int)) by (nonlinear_arith)
                requires
                    a < 0,
                    b > 0,
            ;
        } else if a >= 0 && b < 0 {
            assert(0 <= (a as int) / (-(b as int)) <= a) by (nonlinear_arith)
                requires
                    a >= 0,
                    b < 0,
            ;
        } else if a == i128::MIN && b == -1 {
            assert((-(a as int)) / (-(b as int)) == -(a as int)) by (nonlinear_arith)
                requires
                    b == -1,
            ;
        } else {
            assert(0 <= (-(a as int)) / (-(b as int)) <= i128::MAX) by (nonlinear_arith)
                requires
                    a < 0,
                    b < 0,
                    a >= -0x8000_0000_0000_0000_0000_0000_0000_0000,
                    !(a == -0x8000_0000_0000_0000_0000_0000_0000_0000 && b == -1),
            ;
        }
    }
}

/// Saturating arithmetic returns the exact result when it fits, `i128::MAX`
/// above the range and `i128::MIN` below it.
pub proof fn lemma_saturating_exact(a: i128, b: i128)
    ensures
        saturating_add_result(a, b) == (if a + b > i128::MAX {
            i128::MAX
        } else if a + b < i128::MIN {
            i128::MIN
        } else {
            (a + b) as i128
        }),
        saturating_sub_result(a, b) == (if a - b > i128::MAX {
            i128::MAX
        } else if a - b < i128::MIN {
            i128::MIN
        } else {
            (a - b) as i128
        }),
{
}

} // verus!
