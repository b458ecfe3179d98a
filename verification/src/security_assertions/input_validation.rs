//! Validation of caller-supplied parameters before any state is touched.

use super::{addresses_equal, guard};
use crate::error::RevoraError;
use vstd::prelude::*;

verus! {

/// 100% expressed in basis points.
pub const MAX_BPS: u32 = 10_000;

/// What [`assert_valid_bps`] returns.
pub open spec fn valid_bps_result(bps: u32) -> Result<(), RevoraError> {
    guard(bps <= MAX_BPS, RevoraError::InvalidRevenueShareBps)
}

/// What [`assert_valid_share_bps`] returns.
pub open spec fn valid_share_bps_result(share_bps: u32) -> Result<(), RevoraError> {
    guard(share_bps <= MAX_BPS, RevoraError::InvalidShareBps)
}

/// What [`assert_non_negative_amount`] returns.
pub open spec fn non_negative_amount_result(amount: i128) -> Result<(), RevoraError> {
    guard(amount >= 0, RevoraError::InvalidAmount)
}

/// What [`assert_positive_amount`] returns.
pub open spec fn positive_amount_result(amount: i128) -> Result<(), RevoraError> {
    guard(amount > 0, RevoraError::InvalidAmount)
}

/// What [`assert_positive_period_id`] returns.
pub open spec fn positive_period_id_result(period_id: u64) -> Result<(), RevoraError> {
    guard(period_id > 0, RevoraError::InvalidPeriodId)
}

/// What [`assert_valid_multisig_threshold`] returns.
pub open spec fn multisig_threshold_result(threshold: u32, owner_count: u32) -> Result<(), RevoraError> {
    guard(0 < threshold && threshold <= owner_count, RevoraError::LimitReached)
}

/// What [`assert_valid_concentration_bps`] returns.
pub open spec fn concentration_bps_result(concentration_bps: u32) -> Result<(), RevoraError> {
    guard(concentration_bps <= MAX_BPS, RevoraError::LimitReached)
}

/// What [`assert_addresses_different`] returns.
pub open spec fn addresses_different_result(left: Seq<char>, right: Seq<char>) -> Result<(), RevoraError> {
    guard(left != right, RevoraError::AdminRotationSameAddress)
}

/// A revenue-share rate must lie in `0..=10_000` basis points.
pub fn assert_valid_bps(bps: u32) -> (r: Result<(), RevoraError>)
    ensures
        r == valid_bps_result(bps),
{
    if bps > MAX_BPS {
        Err(RevoraError::InvalidRevenueShareBps)
    } else {
        Ok(())
    }
}

/// A holder share must lie in `0..=10_000` basis points; a larger value is
/// reported as `InvalidShareBps`.
pub fn assert_valid_share_bps(share_bps: u32) -> (r: Result<(), RevoraError>)
    ensures
        r == valid_share_bps_result(share_bps),
{
    if share_bps > MAX_BPS {
        Err(RevoraError::InvalidShareBps)
    } else {
        Ok(())
    }
}

/// Revenue reports accept zero: the amount must be at least 0.
pub fn assert_non_negative_amount(amount: i128) -> (r: Result<(), RevoraError>)
    ensures
        r == non_negative_amount_result(amount),
{
    if amount < 0 {
        Err(RevoraError::InvalidAmount)
    } else {
        Ok(())
    }
}

/// Deposits must move something: the amount must be strictly positive.
pub fn assert_positive_amount(amount: i128) -> (r: Result<(), RevoraError>)
    ensures
        r == positive_amount_result(amount),
{
    if amount <= 0 {
        Err(RevoraError::InvalidAmount)
    } else {
        Ok(())
    }
}

/// Period 0 is reserved: a period identifier must be at least 1.
pub fn assert_positive_period_id(period_id: u64) -> (r: Result<(), RevoraError>)
    ensures
        r == positive_period_id_result(period_id),
{
    if period_id == 0 {
        Err(RevoraError::InvalidPeriodId)
    } else {
        Ok(())
    }
}

/// A multisig threshold must be reachable: `0 < threshold <= owner_count`.
pub fn assert_valid_multisig_threshold(threshold: u32, owner_count: u32) -> (r: Result<(), RevoraError>)
    ensures
        r == multisig_threshold_result(threshold, owner_count),
{
    if threshold == 0 || threshold > owner_count {
        Err(RevoraError::LimitReached)
    } else {
        Ok(())
    }
}

/// A concentration limit must lie in `0..=10_000` basis points.
pub fn assert_valid_concentration_bps(concentration_bps: u32) -> (r: Result<(), RevoraError>)
    ensures
        r == concentration_bps_result(concentration_bps),
{
    if concentration_bps > MAX_BPS {
        Err(RevoraError::LimitReached)
    } else {
        Ok(())
    }
}

/// Rotating an admin to the address it already has is refused.
pub fn assert_addresses_different(left: &str, right: &str) -> (r: Result<(), RevoraError>)
    ensures
        r == addresses_different_result(left@, right@),
{
    if addresses_equal(left, right) {
        Err(RevoraError::AdminRotationSameAddress)
    } else {
        Ok(())
    }
}

/// A holder share and a revenue-share rate are accepted on exactly the same
/// values; only the error reported for a refused value differs.
pub proof fn lemma_share_and_revenue_bps_agree(bps: u32)
    ensures
        (valid_bps_result(bps) is Ok) == (valid_share_bps_result(bps) is Ok),
        valid_bps_result(bps) is Ok <==> bps <= MAX_BPS,
{
}

/// Every amount accepted for a deposit is also accepted for a report, and a
/// report additionally accepts exactly the zero amount.
pub proof fn lemma_deposit_amounts_are_report_amounts(amount: i128)
    ensures
        positive_amount_result(amount) is Ok ==> non_negative_amount_result(amount) is Ok,
        (non_negative_amount_result(amount) is Ok && positive_amount_result(amount) is Err)
            <==> amount == 0,
{
}

/// An N-of-N threshold is valid whenever there is at least one owner, and a
/// valid threshold never exceeds the number of owners.
pub proof fn lemma_multisig_threshold_reachable(threshold: u32, owner_count: u32)
    ensures
        owner_count > 0 ==> multisig_threshold_result(owner_count, owner_count) is Ok,
        multisig_threshold_result(threshold, owner_count) is Ok ==> 1 <= threshold <= owner_count,
{
}

/// The basis-point checks accept exactly the rates from 0 to 10 000 and
/// refuse every other with their own error: the revenue-share rate with
/// `InvalidRevenueShareBps`, the holder share with `InvalidShareBps`, the
/// concentration limit with `LimitReached`. In particular a concentration
/// limit is accepted exactly when the same value is accepted as a
/// revenue-share rate.
pub proof fn lemma_bps_checks_exact(bps: u32)
    ensures
        bps <= 10_000 ==> valid_bps_result(bps) == Ok::<(), RevoraError>(()),
        bps > 10_000 ==> valid_bps_result(bps) == Err::<(), RevoraError>(
            RevoraError::InvalidRevenueShareBps,
        ),
        bps <= 10_000 ==> valid_share_bps_result(bps) == Ok::<(), RevoraError>(()),
        bps > 10_000 ==> valid_share_bps_result(bps) == Err::<(), RevoraError>(
            RevoraError::InvalidShareBps,
        ),
        bps <= 10_000 ==> concentration_bps_result(bps) == Ok::<(), RevoraError>(()),
        bps > 10_000 ==> concentration_bps_result(bps) == Err::<(), RevoraError>(
            RevoraError::LimitReached,
        ),
        (concentration_bps_result(bps) is Ok) == (valid_bps_result(bps) is Ok),
{
}

/// Every negative amount is refused by both amount checks with
/// `InvalidAmount`; a report amount is accepted exactly when it is at least
/// 0 and a deposit amount exactly when it is at least 1. A period id is
/// accepted exactly when it is not 0.
pub proof fn lemma_amount_and_period_checks_exact(amount: i128, period_id: u64)
    ensures
        amount < 0 ==> non_negative_amount_result(amount) == Err::<(), RevoraError>(
            RevoraError::InvalidAmount,
        ),
        amount < 0 ==> positive_amount_result(amount) == Err::<(), RevoraError>(
            RevoraError::InvalidAmount,
        ),
        amount >= 0 ==> non_negative_amount_result(amount) == Ok::<(), RevoraError>(()),
        amount >= 1 ==> positive_amount_result(amount) == Ok::<(), RevoraError>(()),
        positive_amount_result(0) == Err::<(), RevoraError>(RevoraError::InvalidAmount),
        period_id >= 1 ==> positive_period_id_result(period_id) == Ok::<(), RevoraError>(()),
        positive_period_id_result(0) == Err::<(), RevoraError>(RevoraError::InvalidPeriodId),
{
}

/// A multisig threshold is accepted exactly when it lies between 1 and the
/// number of owners: every threshold from 1 to `owner_count` is reachable
/// (not only a majority), and 0 or more than the owners is refused with
/// `LimitReached`.
pub proof fn lemma_multisig_threshold_exact(threshold: u32, owner_count: u32)
    ensures
        1 <= threshold <= owner_count ==> multisig_threshold_result(threshold, owner_count)
            == Ok::<(), RevoraError>(()),
        (threshold == 0 || threshold > owner_count) ==> multisig_threshold_result(
            threshold,
            owner_count,
        ) == Err::<(), RevoraError>(RevoraError::LimitReached),
        forall|t: u32|
            1 <= t <= owner_count ==> #[trigger] multisig_threshold_result(t, owner_count) is Ok,
{
}

/// Two addresses are refused as a rotation pair exactly when they are the
/// same sequence of characters.
pub proof fn lemma_addresses_different_exact(left: Seq<char>, right: Seq<char>)
    ensures
        left == right ==> addresses_different_result(left, right) == Err::<(), RevoraError>(
            RevoraError::AdminRotationSameAddress,
        ),
        left != right ==> addresses_different_result(left, right) == Ok::<(), RevoraError>(()),
{
}

} // verus!
