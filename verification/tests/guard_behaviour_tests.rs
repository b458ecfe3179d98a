//! Boundary values, error variants and laws of the guards, on concrete inputs.

use revora_contracts::error::ERROR_COUNT;
use revora_contracts::periods::strictly_increasing_periods;
use revora_contracts::security_assertions::abort_handling::{
    assert_operation_fails, assert_operation_succeeds, is_recoverable_error, recover_with_default,
};
use revora_contracts::security_assertions::addresses_equal;
use revora_contracts::security_assertions::auth_boundaries::{
    assert_is_proposed_admin, assert_is_proposed_recipient,
};
use revora_contracts::security_assertions::input_validation::{
    assert_addresses_different, assert_non_negative_amount, assert_positive_amount,
    assert_positive_period_id, assert_valid_bps, assert_valid_concentration_bps,
    assert_valid_multisig_threshold, assert_valid_share_bps, MAX_BPS,
};
use revora_contracts::security_assertions::safe_math::{
    safe_add, safe_compute_share, safe_div, safe_mul, safe_sub, saturating_add, saturating_sub,
};
use revora_contracts::security_assertions::state_consistency::{
    assert_contract_not_frozen, assert_holder_not_blacklisted, assert_no_pending_claims,
    assert_no_rotation_pending, assert_no_transfer_pending, assert_offering_exists,
    assert_offering_not_exists, assert_payment_token_matches, assert_period_not_deposited,
    assert_rotation_pending, assert_transfer_pending,
};
use revora_contracts::RevoraError;

#[test]
fn bps_boundaries() {
    assert_eq!(assert_valid_bps(0), Ok(()));
    assert_eq!(assert_valid_bps(MAX_BPS), Ok(()));
    assert_eq!(assert_valid_bps(MAX_BPS + 1), Err(RevoraError::InvalidRevenueShareBps));
    assert_eq!(assert_valid_share_bps(0), Ok(()));
    assert_eq!(assert_valid_share_bps(10_000), Ok(()));
    assert_eq!(assert_valid_share_bps(u32::MAX), Err(RevoraError::InvalidShareBps));
    assert_eq!(assert_valid_concentration_bps(10_000), Ok(()));
    assert_eq!(assert_valid_concentration_bps(10_001), Err(RevoraError::LimitReached));
}

#[test]
fn share_and_revenue_bps_accept_the_same_values() {
    for bps in [0u32, 1, 9_999, 10_000, 10_001, 20_000, u32::MAX] {
        assert_eq!(assert_valid_bps(bps).is_ok(), assert_valid_share_bps(bps).is_ok());
    }
}

#[test]
fn amount_boundaries() {
    assert_eq!(assert_non_negative_amount(i128::MIN), Err(RevoraError::InvalidAmount));
    assert_eq!(assert_non_negative_amount(0), Ok(()));
    assert_eq!(assert_positive_amount(0), Err(RevoraError::InvalidAmount));
    assert_eq!(assert_positive_amount(1), Ok(()));
    // Every deposit amount is a report amount; zero is the only report-only amount.
    for amount in [i128::MIN, -1, 0, 1, i128::MAX] {
        if assert_positive_amount(amount).is_ok() {
            assert!(assert_non_negative_amount(amount).is_ok());
        }
        let report_only =
            assert_non_negative_amount(amount).is_ok() && assert_positive_amount(amount).is_err();
        assert_eq!(report_only, amount == 0);
    }
}

#[test]
fn period_id_boundaries() {
    assert_eq!(assert_positive_period_id(0), Err(RevoraError::InvalidPeriodId));
    assert_eq!(assert_positive_period_id(1), Ok(()));
    assert_eq!(assert_positive_period_id(u64::MAX), Ok(()));
}

#[test]
fn multisig_threshold_boundaries() {
    assert_eq!(assert_valid_multisig_threshold(3, 5), Ok(()));
    assert_eq!(assert_valid_multisig_threshold(6, 5), Err(RevoraError::LimitReached));
    assert_eq!(assert_valid_multisig_threshold(0, 5), Err(RevoraError::LimitReached));
    assert_eq!(assert_valid_multisig_threshold(0, 0), Err(RevoraError::LimitReached));
    assert_eq!(assert_valid_multisig_threshold(1, 1), Ok(()));
}

#[test]
fn addresses_compare_by_characters() {
    assert!(addresses_equal("GABC", "GABC"));
    assert!(!addresses_equal("GABC", "GABD"));
    assert!(!addresses_equal("GABC", "GABCD"));
    assert!(!addresses_equal("", "G"));
    assert!(addresses_equal("", ""));
    assert!(addresses_equal("é∂", "é∂"));
    assert!(!addresses_equal("é∂", "e∂"));
    assert_eq!(assert_addresses_different("a", "b"), Ok(()));
    assert_eq!(
        assert_addresses_different("same", "same"),
        Err(RevoraError::AdminRotationSameAddress)
    );
}

#[test]
fn only_the_proposed_party_accepts() {
    assert_eq!(assert_is_proposed_recipient("new", "new"), Ok(()));
    assert_eq!(
        assert_is_proposed_recipient("new2", "new"),
        Err(RevoraError::UnauthorizedTransferAccept)
    );
    assert_eq!(assert_is_proposed_admin("adm", "adm"), Ok(()));
    assert_eq!(
        assert_is_proposed_admin("ad", "adm"),
        Err(RevoraError::UnauthorizedRotationAccept)
    );
}

#[test]
fn pending_guards_are_exclusive() {
    for pending in [false, true] {
        assert_ne!(
            assert_no_transfer_pending(pending).is_ok(),
            assert_transfer_pending(pending).is_ok()
        );
        assert_ne!(
            assert_no_rotation_pending(pending).is_ok(),
            assert_rotation_pending(pending).is_ok()
        );
    }
    assert_eq!(assert_no_rotation_pending(true), Err(RevoraError::AdminRotationPending));
    assert_eq!(assert_rotation_pending(false), Err(RevoraError::NoAdminRotationPending));
    assert_eq!(assert_rotation_pending(true), Ok(()));
}

#[test]
fn state_guards_each_error() {
    assert_eq!(assert_offering_exists::<u32>(&None), Err(RevoraError::OfferingNotFound));
    assert_eq!(assert_offering_exists(&Some(7u32)), Ok(()));
    assert_eq!(assert_offering_not_exists(&Some(7u32)), Ok(()));
    assert_eq!(assert_offering_not_exists::<u32>(&None), Ok(()));
    assert_eq!(assert_period_not_deposited(true), Err(RevoraError::PeriodAlreadyDeposited));
    assert_eq!(assert_no_pending_claims(false), Err(RevoraError::NoPendingClaims));
    assert_eq!(assert_no_pending_claims(true), Ok(()));
    assert_eq!(assert_holder_not_blacklisted(true), Err(RevoraError::HolderBlacklisted));
    assert_eq!(assert_contract_not_frozen(true), Err(RevoraError::ContractFrozen));
    assert_eq!(assert_payment_token_matches("t1", "t1"), Ok(()));
    assert_eq!(assert_payment_token_matches("t2", "t1"), Err(RevoraError::PaymentTokenMismatch));
}

#[test]
fn checked_arithmetic() {
    assert_eq!(safe_add(i128::MAX, 1), Err(RevoraError::LimitReached));
    assert_eq!(safe_add(i128::MIN, -1), Err(RevoraError::LimitReached));
    assert_eq!(safe_add(-5, 3), Ok(-2));
    assert_eq!(safe_sub(i128::MIN, 1), Err(RevoraError::LimitReached));
    assert_eq!(safe_sub(10, 3), Ok(7));
    assert_eq!(safe_mul(i128::MAX, 2), Err(RevoraError::LimitReached));
    assert_eq!(safe_mul(-4, 6), Ok(-24));
    assert_eq!(safe_div(7, 0), Err(RevoraError::LimitReached));
    assert_eq!(safe_div(i128::MIN, -1), Err(RevoraError::LimitReached));
    assert_eq!(safe_div(-7, 2), Ok(-3));
    assert_eq!(safe_div(7, -2), Ok(-3));
    assert_eq!(safe_div(9, 1), Ok(9));
}

#[test]
fn subtraction_undoes_addition() {
    for (a, b) in [(1_000_i128, 2_000_i128), (i128::MAX - 5, 5), (i128::MIN, 7), (-3, -9)] {
        if let Ok(c) = safe_add(a, b) {
            assert_eq!(safe_sub(c, b), Ok(a));
        }
    }
}

#[test]
fn saturating_arithmetic() {
    assert_eq!(saturating_add(i128::MAX, 1_000), i128::MAX);
    assert_eq!(saturating_add(i128::MIN, -1), i128::MIN);
    assert_eq!(saturating_add(2, 3), 5);
    assert_eq!(saturating_sub(i128::MIN, 1), i128::MIN);
    assert_eq!(saturating_sub(i128::MAX, -1), i128::MAX);
    assert_eq!(saturating_sub(2, 3), -1);
    assert_eq!(safe_add(2, 3), Ok(saturating_add(2, 3)));
}

#[test]
fn share_computation() {
    assert_eq!(safe_compute_share(10_000, 2_500), Ok(2_500));
    assert_eq!(safe_compute_share(1_000_000, 1), Ok(100));
    assert_eq!(safe_compute_share(9_999, 1), Ok(0));
    assert_eq!(safe_compute_share(-10_001, 2_500), Err(RevoraError::InvalidAmount));
    assert_eq!(safe_compute_share(-1, 20_000), Err(RevoraError::InvalidShareBps));
    assert_eq!(safe_compute_share(12_345, 0), Ok(0));
    assert_eq!(safe_compute_share(12_345, 10_000), Ok(12_345));
    assert_eq!(safe_compute_share(i128::MAX, 1), Ok(i128::MAX / 10_000));
    assert_eq!(safe_compute_share(i128::MAX, 2), Err(RevoraError::LimitReached));
    assert_eq!(safe_compute_share(100, 20_000), Err(RevoraError::InvalidShareBps));
    assert_eq!(safe_compute_share(100, 10_001), Err(RevoraError::InvalidShareBps));
}

#[test]
fn error_classification_covers_all_recoverable_errors() {
    let recoverable = [
        RevoraError::OfferingNotFound,
        RevoraError::PeriodAlreadyDeposited,
        RevoraError::NoPendingClaims,
        RevoraError::OutdatedSnapshot,
        RevoraError::ReportingWindowClosed,
        RevoraError::ClaimWindowClosed,
        RevoraError::SignatureExpired,
    ];
    for e in recoverable.iter() {
        assert!(is_recoverable_error(e), "{:?}", e);
    }
    for e in [
        RevoraError::InvalidShareBps,
        RevoraError::SignatureReplay,
        RevoraError::AdminRotationSameAddress,
        RevoraError::LimitReached,
    ] {
        assert!(!is_recoverable_error(&e), "{:?}", e);
    }
    assert_eq!(recover_with_default::<u32>(Err(RevoraError::ContractFrozen), 9), 9);
}

#[test]
fn operation_outcome_checks() {
    assert_eq!(assert_operation_fails::<u32>(Err(RevoraError::InvalidAmount), RevoraError::InvalidAmount), Ok(()));
    assert_eq!(
        assert_operation_fails::<u32>(Ok(1), RevoraError::InvalidAmount),
        Err("operation succeeded but was expected to fail".to_string())
    );
    assert_eq!(
        assert_operation_fails::<u32>(Err(RevoraError::LimitReached), RevoraError::InvalidAmount),
        Err("operation failed with a different error than expected".to_string())
    );
    assert_eq!(assert_operation_succeeds(Ok::<u32, RevoraError>(5)), Ok(5));
    assert_eq!(
        assert_operation_succeeds::<u32>(Err(RevoraError::LimitReached)),
        Err("operation failed but was expected to succeed".to_string())
    );
}

#[test]
fn error_codes_beyond_thirty() {
    assert_eq!(RevoraError::AdminRotationPending.code(), 31);
    assert_eq!(RevoraError::AlreadyApproved.code(), 32);
    assert_eq!(RevoraError::NoAdminRotationPending.code(), 33);
    assert_eq!(RevoraError::UnauthorizedRotationAccept.code(), 34);
    assert_eq!(RevoraError::AdminNotInitialized.code(), 35);
    assert_eq!(RevoraError::AdminRotationSameAddress.code(), ERROR_COUNT);
}

#[test]
fn period_schedule() {
    assert_eq!(strictly_increasing_periods(0), Vec::<u64>::new());
    assert_eq!(strictly_increasing_periods(4), vec![1u64, 12, 33, 64]);
    let v = strictly_increasing_periods(1_000);
    assert_eq!(v.len(), 1_000);
    for w in v.windows(2) {
        assert!(w[0] < w[1]);
        assert!(assert_positive_period_id(w[0]).is_ok());
    }
}
