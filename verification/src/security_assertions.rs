//! Reusable guards for the contract's entry points.
//!
//! Every guard returns `Ok(())` when its condition holds and a specific
//! [`RevoraError`] otherwise; none of them panics.

pub mod abort_handling;
pub mod auth_boundaries;
pub mod input_validation;
pub mod safe_math;
pub mod state_consistency;

use crate::error::RevoraError;
use vstd::prelude::*;

verus! {

/// The result of a guard: `Ok(())` when `ok` holds, `Err(err)` otherwise.
pub open spec fn guard(ok: bool, err: RevoraError) -> Result<(), RevoraError> {
    if ok {
        Ok(())
    } else {
        Err(err)
    }
}

/// Compares two addresses character by character.
pub fn addresses_equal(a: &str, b: &str) -> (r: bool)
    ensures
        r == (a@ == b@),
{
    let n = a.unicode_len();
    if n != b.unicode_len() {
        return false;
    }
    let mut i: usize = 0;
    while i < n
        invariant
            n == a@.len(),
            n == b@.len(),
            i <= n,
            forall|j: int| 0 <= j < i ==> a@[j] == b@[j],
        decreases n - i,
    {
        if a.get_char(i) != b.get_char(i) {
            return false;
        }
        i += 1;
    }
    assert(a@ =~= b@);
    true
}

} // verus!
