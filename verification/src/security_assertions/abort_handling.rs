//! Classification of errors and recovery from them.

use crate::error::RevoraError;
use vstd::prelude::*;

verus! {

/// Errors after which a caller may log and continue: a missing offering, a
/// duplicate deposit, nothing left to claim, a stale snapshot, a closed
/// reporting or claim window, and an expired signature. Every other error
/// is fatal and aborts the operation.
pub open spec fn is_recoverable(error: RevoraError) -> bool {
    match error {
        RevoraError::OfferingNotFound => true,
        RevoraError::PeriodAlreadyDeposited => true,
        RevoraError::NoPendingClaims => true,
        RevoraError::OutdatedSnapshot => true,
        RevoraError::ReportingWindowClosed => true,
        RevoraError::ClaimWindowClosed => true,
        RevoraError::SignatureExpired => true,
        _ => false,
    }
}

/// What [`recover_with_default`] returns.
pub open spec fn recovered<T>(result: Result<T, RevoraError>, default: T) -> T {
    match result {
        Ok(v) => v,
        Err(_) => default,
    }
}

/// Whether an operation failed with exactly the expected error.
pub open spec fn failed_with<T>(result: Result<T, RevoraError>, expected: RevoraError) -> bool {
    result matches Err(e) && e == expected
}

/// Message of [`assert_operation_fails`] when the operation succeeded.
pub open spec fn unexpected_success_message() -> Seq<char> {
    "operation succeeded but was expected to fail"@
}

/// Message of [`assert_operation_fails`] when the operation failed with
/// another error than the expected one.
pub open spec fn wrong_error_message() -> Seq<char> {
    "operation failed with a different error than expected"@
}

/// Message of [`assert_operation_succeeds`] when the operation failed.
pub open spec fn unexpected_failure_message() -> Seq<char> {
    "operation failed but was expected to succeed"@
}

/// Tells whether `error` is recoverable (see [`is_recoverable`]).
pub fn is_recoverable_error(error: &RevoraError) -> (r: bool)
    ensures
        r == is_recoverable(*error),
{
    match error {
        RevoraError::OfferingNotFound => true,
        RevoraError::PeriodAlreadyDeposited => true,
        RevoraError::NoPendingClaims => true,
        RevoraError::OutdatedSnapshot => true,
        RevoraError::ReportingWindowClosed => true,
        RevoraError::ClaimWindowClosed => true,
        RevoraError::SignatureExpired => true,
        _ => false,
    }
}

/// The value of a successful operation, or `default` when it failed.
pub fn recover_with_default<T>(result: Result<T, RevoraError>, default: T) -> (r: T)
    ensures
        r == recovered(result, default),
{
    match result {
        Ok(v) => v,
        Err(_) => default,
    }
}

/// `Ok(())` when the operation failed with exactly `expected_error`, and an
/// explanatory message otherwise.
pub fn assert_operation_fails<T>(result: Result<T, RevoraError>, expected_error: RevoraError) -> (r: Result<(), String>)
    ensures
        r is Ok <==> failed_with(result, expected_error),
        result is Ok ==> (r matches Err(m) && m@ == unexpected_success_message()),
        (result is Err && !failed_with(result, expected_error)) ==> (r matches Err(m) && m@
            == wrong_error_message()),
{
    match result {
        Ok(_) => Err(String::from_str("operation succeeded but was expected to fail")),
        Err(e) => {
            if e == expected_error {
                Ok(())
            } else {
                Err(String::from_str("operation failed with a different error than expected"))
            }
        },
    }
}

/// The value of a successful operation, and an explanatory message when it
/// failed.
pub fn assert_operation_succeeds<T>(result: Result<T, RevoraError>) -> (r: Result<T, String>)
    ensures
        result matches Ok(v) ==> r == Ok::<T, String>(v),
        result is Err ==> (r matches Err(m) && m@ == unexpected_failure_message()),
{
    match result {
        Ok(v) => Ok(v),
        Err(_) => Err(String::from_str("operation failed but was expected to succeed")),
    }
}

/// Recovery hands back the value of every successful operation and the
/// default for every failed one.
pub proof fn lemma_recovery<T>(v: T, e: RevoraError, default: T)
    ensures
        recovered(Ok::<T, RevoraError>(v), default) == v,
        recovered(Err::<T, RevoraError>(e), default) == default,
{
}

/// The recoverable errors are exactly seven; each of them and only they are
/// classified as recoverable. In particular the errors that guard funds and
/// authority (bad rates, a frozen contract, a missing authorization, a token
/// mismatch, a concentration breach) are fatal.
pub proof fn lemma_fatal_errors(e: RevoraError)
    ensures
        is_recoverable(e) ==> (e == RevoraError::OfferingNotFound || e
            == RevoraError::PeriodAlreadyDeposited || e == RevoraError::NoPendingClaims || e
            == RevoraError::OutdatedSnapshot || e == RevoraError::ReportingWindowClosed || e
            == RevoraError::ClaimWindowClosed || e == RevoraError::SignatureExpired),
        !is_recoverable(RevoraError::InvalidRevenueShareBps),
        !is_recoverable(RevoraError::InvalidShareBps),
        !is_recoverable(RevoraError::ConcentrationLimitExceeded),
        !is_recoverable(RevoraError::ContractFrozen),
        !is_recoverable(RevoraError::NotAuthorized),
        !is_recoverable(RevoraError::PaymentTokenMismatch),
{
}

/// Each of the seven recoverable errors is classified as recoverable.
pub proof fn lemma_recoverable_errors()
    ensures
        is_recoverable(RevoraError::OfferingNotFound),
        is_recoverable(RevoraError::PeriodAlreadyDeposited),
        is_recoverable(RevoraError::NoPendingClaims),
        is_recoverable(RevoraError::OutdatedSnapshot),
        is_recoverable(RevoraError::ReportingWindowClosed),
        is_recoverable(RevoraError::ClaimWindowClosed),
        is_recoverable(RevoraError::SignatureExpired),
{
}

/// An operation checked for failure passes exactly when it failed with the
/// expected error.
pub proof fn lemma_failed_with_exact<T>(v: T, e: RevoraError, expected: RevoraError)
    ensures
        !failed_with(Ok::<T, RevoraError>(v), expected),
        failed_with(Err::<T, RevoraError>(e), expected) <==> e == expected,
{
}

} // verus!
