//! Strictly increasing period identifiers for exercising period ordering.
//!
//! The schedule starts at period 1 and widens the gap by ten each step:
//! the `i`-th period is `1 + 11 + 21 + ... + (1 + 10 * i)`, that is
//! `(i + 1) * (5 * i + 1)`.

use vstd::prelude::*;

verus! {

/// The `i`-th period of the schedule (counting from 0).
pub open spec fn period_at(i: int) -> int {
    (i + 1) * (5 * i + 1)
}

/// Whether a schedule of `len` periods fits in `u64`.
pub open spec fn schedule_fits(len: int) -> bool {
    len == 0 || period_at(len - 1) <= u64::MAX
}

/// Each period exceeds the one before it by `1 + 10 * i`.
pub proof fn lemma_period_step(i: int)
    requires
        i >= 0,
    ensures
        period_at(i + 1) == period_at(i) + 1 + 10 * (i + 1),
{
    assert(period_at(i + 1) == period_at(i) + 1 + 10 * (i + 1)) by (nonlinear_arith);
}

/// The schedule starts at 1 and its `i`-th period is at least `10 * i + 1`.
pub proof fn lemma_period_lower_bound(i: int)
    requires
        i >= 0,
    ensures
        period_at(i) >= 10 * i + 1,
        period_at(0) == 1,
{
    assert(period_at(i) >= 10 * i + 1 && period_at(0) == 1) by (nonlinear_arith)
        requires
            i >= 0,
    ;
}

/// The schedule is strictly increasing and starts at 1.
pub proof fn lemma_period_increasing(i: int, j: int)
    requires
        0 <= i < j,
    ensures
        1 <= period_at(i) < period_at(j),
{
    assert(1 <= period_at(i) < period_at(j)) by (nonlinear_arith)
        requires
            0 <= i < j,
    ;
}

/// The first `len` periods of the schedule, each strictly greater than the
/// one before; the first is 1.
pub fn strictly_increasing_periods(len: usize) -> (v: Vec<u64>)
    requires
        schedule_fits(len as int),
    ensures
        v.len() == len,
        forall|i: int| 0 <= i < len ==> v[i] == period_at(i),
{
    let mut v: Vec<u64> = Vec::new();
    let mut last: u64 = 0;
    let mut i: usize = 0;
    while i < len
        invariant
            i <= len,
            schedule_fits(len as int),
            v.len() == i,
            forall|k: int| 0 <= k < i ==> v[k] == period_at(k),
            last == (if i == 0 {
                0
            } else {
                period_at(i - 1)
            }),
        decreases len - i,
    {
        proof {
            if i > 0 {
                lemma_period_step(i - 1);
            }
            if i + 1 < len {
                lemma_period_increasing(i as int, len - 1);
            }
            lemma_period_lower_bound(i as int);
        }
        let gap: u64 = 1 + (i as u64) * 10;
        last = last + gap;
        v.push(last);
        i += 1;
    }
    v
}

/// Every schedule is strictly increasing and every period in it is a valid
/// (non-zero) period identifier.
pub proof fn lemma_schedule_strictly_increasing(v: Seq<u64>)
    requires
        forall|i: int| 0 <= i < v.len() ==> v[i] == period_at(i),
    ensures
        forall|i: int, j: int| 0 <= i < j < v.len() ==> v[i] < v[j],
        forall|i: int| 0 <= i < v.len() ==> v[i] >= 1,
{
    assert forall|i: int, j: int| 0 <= i < j < v.len() implies v[i] < v[j] by {
        lemma_period_increasing(i, j);
    }
    assert forall|i: int| 0 <= i < v.len() implies v[i] >= 1 by {
        lemma_period_increasing(i, i + 1);
    }
}

/// Whether a schedule of `len` periods fits in `u64`, computed without
/// overflow.
pub fn schedule_fits_u64(len: usize) -> (r: bool)
    ensures
        r == schedule_fits(len as int),
{
    if len == 0 {
        return true;
    }
    let n: u128 = len as u128;
    if n > 0x1_0000_0000 {
        proof {
            assert(period_at(n - 1) > u64::MAX) by (nonlinear_arith)
                requires
                    n > 0x1_0000_0000,
                    period_at(n - 1) == n * (5 * n - 4),
            ;
        }
        return false;
    }
    proof {
        assert(n * (5 * n - 4) <= 0x1_0000_0000 * (5 * 0x1_0000_0000)) by (nonlinear_arith)
            requires
                1 <= n <= 0x1_0000_0000,
        ;
        assert(period_at(n - 1) == n * (5 * n - 4)) by (nonlinear_arith);
    }
    let last: u128 = n * (5 * n - 4);
    last <= 0xFFFF_FFFF_FFFF_FFFF
}

/// The first `len` periods of the schedule, or `None` when the last of them
/// would not fit in `u64`.
pub fn try_strictly_increasing_periods(len: usize) -> (r: Option<Vec<u64>>)
    ensures
        r is Some <==> schedule_fits(len as int),
        r matches Some(v) ==> v.len() == len && forall|i: int| 0 <= i < len ==> v[i] == period_at(i),
{
    if schedule_fits_u64(len) {
        Some(strictly_increasing_periods(len))
    } else {
        None
    }
}

} // verus!
