//! Guards on the contract's state before an operation mutates it.

use super::{addresses_equal, guard};
use crate::error::RevoraError;
use vstd::prelude::*;

verus! {

/// What [`assert_no_transfer_pending`] returns.
pub open spec fn no_transfer_pending_result(is_pending: bool) -> Result<(), RevoraError> {
    guard(!is_pending, RevoraError::IssuerTransferPending)
}

/// What [`assert_transfer_pending`] returns.
pub open spec fn transfer_pending_result(is_pending: bool) -> Result<(), RevoraError> {
    guard(is_pending, RevoraError::NoTransferPending)
}

/// What [`assert_no_rotation_pending`] returns.
pub open spec fn no_rotation_pending_result(is_pending: bool) -> Result<(), RevoraError> {
    guard(!is_pending, RevoraError::AdminRotationPending)
}

/// What [`assert_rotation_pending`] returns.
pub open spec fn rotation_pending_result(is_pending: bool) -> Result<(), RevoraError> {
    guard(is_pending, RevoraError::NoAdminRotationPending)
}

/// What [`assert_offering_exists`] returns.
pub open spec fn offering_exists_result<T>(offering: Option<T>) -> Result<(), RevoraError> {
    guard(offering is Some, RevoraError::OfferingNotFound)
}

/// What [`assert_period_not_deposited`] returns.
pub open spec fn period_not_deposited_result(is_deposited: bool) -> Result<(), RevoraError> {
    guard(!is_deposited, RevoraError::PeriodAlreadyDeposited)
}

/// What [`assert_no_pending_claims`] returns.
pub open spec fn pending_claims_result(has_pending: bool) -> Result<(), RevoraError> {
    guard(has_pending, RevoraError::NoPendingClaims)
}

/// What [`assert_holder_not_blacklisted`] returns.
pub open spec fn holder_not_blacklisted_result(is_blacklisted: bool) -> Result<(), RevoraError> {
    guard(!is_blacklisted, RevoraError::HolderBlacklisted)
}

/// What [`assert_contract_not_frozen`] returns.
pub open spec fn contract_not_frozen_result(is_frozen: bool) -> Result<(), RevoraError> {
    guard(!is_frozen, RevoraError::ContractFrozen)
}

/// What [`assert_payment_token_matches`] returns.
pub open spec fn payment_token_result(actual: Seq<char>, expected: Seq<char>) -> Result<(), RevoraError> {
    guard(actual == expected, RevoraError::PaymentTokenMismatch)
}

/// A new issuer transfer may be proposed only when none is pending.
pub fn assert_no_transfer_pending(is_pending: bool) -> (r: Result<(), RevoraError>)
    ensures
        r == no_transfer_pending_result(is_pending),
{
    if is_pending {
        Err(RevoraError::IssuerTransferPending)
    } else {
        Ok(())
    }
}

/// A transfer can be accepted or cancelled only while one is pending.
pub fn assert_transfer_pending(is_pending: bool) -> (r: Result<(), RevoraError>)
    ensures
        r == transfer_pending_result(is_pending),
{
    if is_pending {
        Ok(())
    } else {
        Err(RevoraError::NoTransferPending)
    }
}

/// A new admin rotation may be proposed only when none is pending.
pub fn assert_no_rotation_pending(is_pending: bool) -> (r: Result<(), RevoraError>)
    ensures
        r == no_rotation_pending_result(is_pending),
{
    if is_pending {
        Err(RevoraError::AdminRotationPending)
    } else {
        Ok(())
    }
}

/// A rotation can be accepted or cancelled only while one is pending.
pub fn assert_rotation_pending(is_pending: bool) -> (r: Result<(), RevoraError>)
    ensures
        r == rotation_pending_result(is_pending),
{
    if is_pending {
        Ok(())
    } else {
        Err(RevoraError::NoAdminRotationPending)
    }
}

/// Operations on an offering require that it has been registered.
pub fn assert_offering_exists<T>(offering: &Option<T>) -> (r: Result<(), RevoraError>)
    ensures
        r == offering_exists_result(*offering),
{
    match offering {
        Some(_) => Ok(()),
        None => Err(RevoraError::OfferingNotFound),
    }
}

/// Registration does not require uniqueness: an offering may be registered
/// again, so this check accepts every input.
pub fn assert_offering_not_exists<T>(offering: &Option<T>) -> (r: Result<(), RevoraError>)
    ensures
        r == Ok::<(), RevoraError>(()),
{
    Ok(())
}

/// A period may be deposited only once.
pub fn assert_period_not_deposited(is_deposited: bool) -> (r: Result<(), RevoraError>)
    ensures
        r == period_not_deposited_result(is_deposited),
{
    if is_deposited {
        Err(RevoraError::PeriodAlreadyDeposited)
    } else {
        Ok(())
    }
}

/// A claim requires at least one unclaimed period; with none left the claim
/// is refused with `NoPendingClaims`.
pub fn assert_no_pending_claims(has_pending: bool) -> (r: Result<(), RevoraError>)
    ensures
        r == pending_claims_result(has_pending),
{
    if has_pending {
        Ok(())
    } else {
        Err(RevoraError::NoPendingClaims)
    }
}

/// Blacklisted holders cannot claim.
pub fn assert_holder_not_blacklisted(is_blacklisted: bool) -> (r: Result<(), RevoraError>)
    ensures
        r == holder_not_blacklisted_result(is_blacklisted),
{
    if is_blacklisted {
        Err(RevoraError::HolderBlacklisted)
    } else {
        Ok(())
    }
}

/// A frozen contract refuses every state change.
pub fn assert_contract_not_frozen(is_frozen: bool) -> (r: Result<(), RevoraError>)
    ensures
        r == contract_not_frozen_result(is_frozen),
{
    if is_frozen {
        Err(RevoraError::ContractFrozen)
    } else {
        Ok(())
    }
}

/// The payment token is locked by the first deposit: later deposits must use
/// the same token.
pub fn assert_payment_token_matches(actual: &str, expected: &str) -> (r: Result<(), RevoraError>)
    ensures
        r == payment_token_result(actual@, expected@),
{
    if addresses_equal(actual, expected) {
        Ok(())
    } else {
        Err(RevoraError::PaymentTokenMismatch)
    }
}

/// Propose and accept/cancel of an issuer transfer are mutually exclusive:
/// in every state exactly one of the two guards lets the call through.
pub proof fn lemma_transfer_guards_exclusive(is_pending: bool)
    ensures
        (no_transfer_pending_result(is_pending) is Ok) != (transfer_pending_result(is_pending) is Ok),
{
}

/// Propose and accept/cancel of an admin rotation are mutually exclusive:
/// in every state exactly one of the two guards lets the call through.
pub proof fn lemma_rotation_guards_exclusive(is_pending: bool)
    ensures
        (no_rotation_pending_result(is_pending) is Ok) != (rotation_pending_result(is_pending) is Ok),
{
}

/// Once the payment token is locked, a deposit in that same token is
/// accepted and a deposit in any other token is refused.
pub proof fn lemma_payment_token_lock(locked: Seq<char>, other: Seq<char>)
    ensures
        payment_token_result(locked, locked) is Ok,
        other != locked ==> payment_token_result(other, locked) == Err::<(), RevoraError>(
            RevoraError::PaymentTokenMismatch,
        ),
{
}

/// Each state guard lets the call through in exactly one of the two states
/// and refuses the other with its own error.
pub proof fn lemma_state_guards_exact()
    ensures
        no_transfer_pending_result(false) == Ok::<(), RevoraError>(()),
        no_transfer_pending_result(true) == Err::<(), RevoraError>(RevoraError::IssuerTransferPending),
        transfer_pending_result(true) == Ok::<(), RevoraError>(()),
        transfer_pending_result(false) == Err::<(), RevoraError>(RevoraError::NoTransferPending),
        no_rotation_pending_result(false) == Ok::<(), RevoraError>(()),
        no_rotation_pending_result(true) == Err::<(), RevoraError>(RevoraError::AdminRotationPending),
        rotation_pending_result(true) == Ok::<(), RevoraError>(()),
        rotation_pending_result(false) == Err::<(), RevoraError>(RevoraError::NoAdminRotationPending),
        period_not_deposited_result(false) == Ok::<(), RevoraError>(()),
        period_not_deposited_result(true) == Err::<(), RevoraError>(
            RevoraError::PeriodAlreadyDeposited,
        ),
        pending_claims_result(true) == Ok::<(), RevoraError>(()),
        pending_claims_result(false) == Err::<(), RevoraError>(RevoraError::NoPendingClaims),
        holder_not_blacklisted_result(false) == Ok::<(), RevoraError>(()),
        holder_not_blacklisted_result(true) == Err::<(), RevoraError>(RevoraError::HolderBlacklisted),
        contract_not_frozen_result(false) == Ok::<(), RevoraError>(()),
        contract_not_frozen_result(true) == Err::<(), RevoraError>(RevoraError::ContractFrozen),
{
}

/// An offering is found exactly when one is present; a deposit token is
/// accepted exactly when it equals the locked token.
pub proof fn lemma_offering_and_token_exact<T>(offering: T, actual: Seq<char>, expected: Seq<char>)
    ensures
        offering_exists_result(Some(offering)) == Ok::<(), RevoraError>(()),
        offering_exists_result(None::<T>) == Err::<(), RevoraError>(RevoraError::OfferingNotFound),
        actual == expected ==> payment_token_result(actual, expected) == Ok::<(), RevoraError>(()),
        actual != expected ==> payment_token_result(actual, expected) == Err::<(), RevoraError>(
            RevoraError::PaymentTokenMismatch,
        ),
{
}

} // verus!
