use vstd::prelude::*;

verus! {

/// Errors returned by the revenue-share contract.
///
/// Every variant has a stable numeric code (see [`RevoraError::code`]); the
/// first thirty codes are contiguous from 1 to 30. `AlreadyApproved` is 32;
/// the admin-rotation errors take this library's own codes 31 and 33 to 36,
/// following on after the first thirty.
#[derive(Clone, Copy, Debug, PartialEq, Eq, Structural)]
pub enum RevoraError {
    InvalidRevenueShareBps,
    LimitReached,
    ConcentrationLimitExceeded,
    OfferingNotFound,
    PeriodAlreadyDeposited,
    NoPendingClaims,
    HolderBlacklisted,
    InvalidShareBps,
    PaymentTokenMismatch,
    ContractFrozen,
    ClaimDelayNotElapsed,
    SnapshotNotEnabled,
    OutdatedSnapshot,
    PayoutAssetMismatch,
    IssuerTransferPending,
    NoTransferPending,
    UnauthorizedTransferAccept,
    MetadataTooLarge,
    NotAuthorized,
    NotInitialized,
    InvalidAmount,
    InvalidPeriodId,
    SupplyCapExceeded,
    MetadataInvalidFormat,
    ReportingWindowClosed,
    ClaimWindowClosed,
    SignatureExpired,
    SignatureReplay,
    SignerKeyNotRegistered,
    ShareSumExceeded,
    AdminRotationPending,
    AlreadyApproved,
    NoAdminRotationPending,
    UnauthorizedRotationAccept,
    AdminNotInitialized,
    AdminRotationSameAddress,
}

/// Number of error variants; their codes are exactly `1..=ERROR_COUNT`
/// (codes 31 and 33 to 36 are this library's own numbering).
pub const ERROR_COUNT: u32 = 36;

impl RevoraError {
    /// The stable numeric code of an error.
    pub open spec fn spec_code(&self) -> u32 {
        match self {
            RevoraError::InvalidRevenueShareBps => 1,
            RevoraError::LimitReached => 2,
            RevoraError::ConcentrationLimitExceeded => 3,
            RevoraError::OfferingNotFound => 4,
            RevoraError::PeriodAlreadyDeposited => 5,
            RevoraError::NoPendingClaims => 6,
            RevoraError::HolderBlacklisted => 7,
            RevoraError::InvalidShareBps => 8,
            RevoraError::PaymentTokenMismatch => 9,
            RevoraError::ContractFrozen => 10,
            RevoraError::ClaimDelayNotElapsed => 11,
            RevoraError::SnapshotNotEnabled => 12,
            RevoraError::OutdatedSnapshot => 13,
            RevoraError::PayoutAssetMismatch => 14,
            RevoraError::IssuerTransferPending => 15,
            RevoraError::NoTransferPending => 16,
            RevoraError::UnauthorizedTransferAccept => 17,
            RevoraError::MetadataTooLarge => 18,
            RevoraError::NotAuthorized => 19,
            RevoraError::NotInitialized => 20,
            RevoraError::InvalidAmount => 21,
            RevoraError::InvalidPeriodId => 22,
            RevoraError::SupplyCapExceeded => 23,
            RevoraError::MetadataInvalidFormat => 24,
            RevoraError::ReportingWindowClosed => 25,
            RevoraError::ClaimWindowClosed => 26,
            RevoraError::SignatureExpired => 27,
            RevoraError::SignatureReplay => 28,
            RevoraError::SignerKeyNotRegistered => 29,
            RevoraError::ShareSumExceeded => 30,
            RevoraError::AdminRotationPending => 31,
            RevoraError::AlreadyApproved => 32,
            RevoraError::NoAdminRotationPending => 33,
            RevoraError::UnauthorizedRotationAccept => 34,
            RevoraError::AdminNotInitialized => 35,
            RevoraError::AdminRotationSameAddress => 36,
        }
    }

    /// Returns the stable numeric code of this error, as reported to callers
    /// of the contract.
    #[verifier::when_used_as_spec(spec_code)]
    pub fn code(&self) -> (c: u32)
        ensures
            c == self.spec_code(),
    {
        match self {
            RevoraError::InvalidRevenueShareBps => 1,
            RevoraError::LimitReached => 2,
            RevoraError::ConcentrationLimitExceeded => 3,
            RevoraError::OfferingNotFound => 4,
            RevoraError::PeriodAlreadyDeposited => 5,
            RevoraError::NoPendingClaims => 6,
            RevoraError::HolderBlacklisted => 7,
            RevoraError::InvalidShareBps => 8,
            RevoraError::PaymentTokenMismatch => 9,
            RevoraError::ContractFrozen => 10,
            RevoraError::ClaimDelayNotElapsed => 11,
            RevoraError::SnapshotNotEnabled => 12,
            RevoraError::OutdatedSnapshot => 13,
            RevoraError::PayoutAssetMismatch => 14,
            RevoraError::IssuerTransferPending => 15,
            RevoraError::NoTransferPending => 16,
            RevoraError::UnauthorizedTransferAccept => 17,
            RevoraError::MetadataTooLarge => 18,
            RevoraError::NotAuthorized => 19,
            RevoraError::NotInitialized => 20,
            RevoraError::InvalidAmount => 21,
            RevoraError::InvalidPeriodId => 22,
            RevoraError::SupplyCapExceeded => 23,
            RevoraError::MetadataInvalidFormat => 24,
            RevoraError::ReportingWindowClosed => 25,
            RevoraError::ClaimWindowClosed => 26,
            RevoraError::SignatureExpired => 27,
            RevoraError::SignatureReplay => 28,
            RevoraError::SignerKeyNotRegistered => 29,
            RevoraError::ShareSumExceeded => 30,
            RevoraError::AdminRotationPending => 31,
            RevoraError::AlreadyApproved => 32,
            RevoraError::NoAdminRotationPending => 33,
            RevoraError::UnauthorizedRotationAccept => 34,
            RevoraError::AdminNotInitialized => 35,
            RevoraError::AdminRotationSameAddress => 36,
        }
    }
}

/// Distinct errors have distinct codes: a code identifies its error.
pub proof fn lemma_code_injective(a: RevoraError, b: RevoraError)
    ensures
        a.spec_code() == b.spec_code() ==> a == b,
{
}

/// Every code lies in `1..=ERROR_COUNT`.
pub proof fn lemma_code_in_range(e: RevoraError)
    ensures
        1 <= e.spec_code() <= ERROR_COUNT,
{
}

/// Whether some error has code `c`.
pub open spec fn code_taken(c: u32) -> bool {
    exists|e: RevoraError| #[trigger] e.spec_code() == c
}

/// The codes are contiguous: every value in `1..=ERROR_COUNT` is the code of
/// some error (and, by [`lemma_code_injective`], of exactly one).
pub proof fn lemma_codes_contiguous()
    ensures
        forall|c: u32| 1 <= c <= ERROR_COUNT ==> #[trigger] code_taken(c),
{
    assert forall|c: u32| 1 <= c <= ERROR_COUNT implies #[trigger] code_taken(c) by {
        if c == 1 {
            assert(RevoraError::InvalidRevenueShareBps.spec_code() == c);
        } else if c == 2 {
            assert(RevoraError::LimitReached.spec_code() == c);
        } else if c == 3 {
            assert(RevoraError::ConcentrationLimitExceeded.spec_code() == c);
        } else if c == 4 {
            assert(RevoraError::OfferingNotFound.spec_code() == c);
        } else if c == 5 {
            assert(RevoraError::PeriodAlreadyDeposited.spec_code() == c);
        } else if c == 6 {
            assert(RevoraError::NoPendingClaims.spec_code() == c);
        } else if c == 7 {
            assert(RevoraError::HolderBlacklisted.spec_code() == c);
        } else if c == 8 {
            assert(RevoraError::InvalidShareBps.spec_code() == c);
        } else if c == 9 {
            assert(RevoraError::PaymentTokenMismatch.spec_code() == c);
        } else if c == 10 {
            assert(RevoraError::ContractFrozen.spec_code() == c);
        } else if c == 11 {
            assert(RevoraError::ClaimDelayNotElapsed.spec_code() == c);
        } else if c == 12 {
            assert(RevoraError::SnapshotNotEnabled.spec_code() == c);
        } else if c == 13 {
            assert(RevoraError::OutdatedSnapshot.spec_code() == c);
        } else if c == 14 {
            assert(RevoraError::PayoutAssetMismatch.spec_code() == c);
        } else if c == 15 {
            assert(RevoraError::IssuerTransferPending.spec_code() == c);
        } else if c == 16 {
            assert(RevoraError::NoTransferPending.spec_code() == c);
        } else if c == 17 {
            assert(RevoraError::UnauthorizedTransferAccept.spec_code() == c);
        } else if c == 18 {
            assert(RevoraError::MetadataTooLarge.spec_code() == c);
        } else if c == 19 {
            assert(RevoraError::NotAuthorized.spec_code() == c);
        } else if c == 20 {
            assert(RevoraError::NotInitialized.spec_code() == c);
        } else if c == 21 {
            assert(RevoraError::InvalidAmount.spec_code() == c);
        } else if c == 22 {
            assert(RevoraError::InvalidPeriodId.spec_code() == c);
        } else if c == 23 {
            assert(RevoraError::SupplyCapExceeded.spec_code() == c);
        } else if c == 24 {
            assert(RevoraError::MetadataInvalidFormat.spec_code() == c);
        } else if c == 25 {
            assert(RevoraError::ReportingWindowClosed.spec_code() == c);
        } else if c == 26 {
            assert(RevoraError::ClaimWindowClosed.spec_code() == c);
        } else if c == 27 {
            assert(RevoraError::SignatureExpired.spec_code() == c);
        } else if c == 28 {
            assert(RevoraError::SignatureReplay.spec_code() == c);
        } else if c == 29 {
            assert(RevoraError::SignerKeyNotRegistered.spec_code() == c);
        } else if c == 30 {
            assert(RevoraError::ShareSumExceeded.spec_code() == c);
        } else if c == 31 {
            assert(RevoraError::AdminRotationPending.spec_code() == c);
        } else if c == 32 {
            assert(RevoraError::AlreadyApproved.spec_code() == c);
        } else if c == 33 {
            assert(RevoraError::NoAdminRotationPending.spec_code() == c);
        } else if c == 34 {
            assert(RevoraError::UnauthorizedRotationAccept.spec_code() == c);
        } else if c == 35 {
            assert(RevoraError::AdminNotInitialized.spec_code() == c);
        } else if c == 36 {
            assert(RevoraError::AdminRotationSameAddress.spec_code() == c);
        }
    }
}

} // verus!
