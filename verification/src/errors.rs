//! The error taxonomy of the protocol.
//!
//! Every operation reports failure synchronously with a specific kind; no
//! error is ever a generic failure, and no failing operation leaves a partial
//! state change behind.

use vstd::prelude::*;

verus! {

/// The reason an operation was refused.
///
/// Validation errors (bad amounts, ratios, descriptions), eligibility errors
/// (insufficient collateral, not under-collateralized, unauthorized actor) and
/// arithmetic errors (overflow, underflow, and division by a zero stablecoin
/// balance, all reported as `Overflow`) are rejected before any state is
/// mutated.
#[derive(Clone, Copy, Debug, PartialEq, Eq)]
pub enum ErrorCode {
    InsufficientCollateral,
    InsufficientBalance,
    Overflow,
    NotEligibleForLiquidation,
    InsufficientStakingBalance,
    NoRewardsAvailable,
    UnauthorizedOperation,
    StakingPoolEmpty,
    InvalidCollateralRatio,
    InvalidAmount,
    InvalidLockupPeriod,
    LockupPeriodNotOver,
    RewardsAlreadyClaimed,
    DescriptionTooLong,
    ProposalAlreadyConcluded,
    InvalidPrice,
    InvalidCollateralType,
    CollateralTypeAlreadyExists,
    CollateralTypeInUse,
    IneligibleToVote,
    ProposalNoChangesSpecified,
    RestrictedToGovernance,
    StakingPaused,
    InsufficientInsurancePoolBalance,
    Unauthorized,
    AlreadyInitialized,
    InvalidAccountOwner,
    InvalidAccountData,
    InsufficientFunds,
    FeatureNotSupported,
    RateLimitExceeded,
    VotingPeriodEnded,
}

} // verus!
