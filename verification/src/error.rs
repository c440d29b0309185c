//! Errors of the fee router.
use vstd::prelude::*;

verus! {

/// Every way an instruction of the fee router can be refused by the
/// program's own checks.
#[derive(Debug, Clone, Copy, PartialEq, Eq, Structural)]
pub enum FeeRoutingError {
    PoolNotQuoteOnlyCompatible,
    InvalidTokenOrder,
    BaseMintMismatch,
    QuoteMintMismatch,
    InvalidPoolAccount,
    InvalidPoolDiscriminator,
    InvalidInvestorFeeShare,
    InvalidTotalAllocation,
    InvalidCreatorAta,
    FeeModeNotQuoteOnly,
    InvalidPositionAuthority,
    VaultConfigAlreadyExists,
    InvalidProgramId,
    AmountIsZero,
    MathOverflow,
}

/// The human-readable message of each error.
pub open spec fn error_message(e: FeeRoutingError) -> Seq<char> {
    match e {
        FeeRoutingError::PoolNotQuoteOnlyCompatible =>
            "Pool fee collection mode is not quote-only (must be 0 or 1)"@,
        FeeRoutingError::InvalidTokenOrder =>
            "Invalid token order - base mint must be lexicographically less than quote mint"@,
        FeeRoutingError::BaseMintMismatch => "Base mint does not match pool configuration"@,
        FeeRoutingError::QuoteMintMismatch => "Quote mint does not match pool configuration"@,
        FeeRoutingError::InvalidPoolAccount =>
            "Pool account is invalid or not properly initialized"@,
        FeeRoutingError::InvalidPoolDiscriminator =>
            "Pool discriminator does not match expected DAMM v2 pool"@,
        FeeRoutingError::InvalidInvestorFeeShare =>
            "Investor fee share exceeds maximum allowed (10000 bps)"@,
        FeeRoutingError::InvalidTotalAllocation => "Total allocation (Y0) cannot be zero"@,
        FeeRoutingError::InvalidCreatorAta =>
            "Creator quote ATA is invalid or not for the correct mint"@,
        FeeRoutingError::FeeModeNotQuoteOnly => "Fee mode not quote only"@,
        FeeRoutingError::InvalidPositionAuthority => "Position authority mismatch"@,
        FeeRoutingError::VaultConfigAlreadyExists => "Vault configuration already exists"@,
        FeeRoutingError::InvalidProgramId => "Invalid program ID - must be Meteora cp-amm"@,
        FeeRoutingError::AmountIsZero => "Amount is zero"@,
        FeeRoutingError::MathOverflow => "Math operation overflow"@,
    }
}

impl FeeRoutingError {
    /// The message reported for this error.
    pub fn message(&self) -> (s: &'static str)
        ensures
            s@ == error_message(*self),
    {
        match self {
            FeeRoutingError::PoolNotQuoteOnlyCompatible =>
                "Pool fee collection mode is not quote-only (must be 0 or 1)",
            FeeRoutingError::InvalidTokenOrder =>
                "Invalid token order - base mint must be lexicographically less than quote mint",
            FeeRoutingError::BaseMintMismatch => "Base mint does not match pool configuration",
            FeeRoutingError::QuoteMintMismatch => "Quote mint does not match pool configuration",
            FeeRoutingError::InvalidPoolAccount =>
                "Pool account is invalid or not properly initialized",
            FeeRoutingError::InvalidPoolDiscriminator =>
                "Pool discriminator does not match expected DAMM v2 pool",
            FeeRoutingError::InvalidInvestorFeeShare =>
                "Investor fee share exceeds maximum allowed (10000 bps)",
            FeeRoutingError::InvalidTotalAllocation => "Total allocation (Y0) cannot be zero",
            FeeRoutingError::InvalidCreatorAta =>
                "Creator quote ATA is invalid or not for the correct mint",
            FeeRoutingError::FeeModeNotQuoteOnly => "Fee mode not quote only",
            FeeRoutingError::InvalidPositionAuthority => "Position authority mismatch",
            FeeRoutingError::VaultConfigAlreadyExists => "Vault configuration already exists",
            FeeRoutingError::InvalidProgramId => "Invalid program ID - must be Meteora cp-amm",
            FeeRoutingError::AmountIsZero => "Amount is zero",
            FeeRoutingError::MathOverflow => "Math operation overflow",
        }
    }
}

} // verus!
