use vstd::prelude::*;

verus! {

/// Every way in which an instruction of the outcome-market program is refused.
#[derive(Clone, Copy, Debug, PartialEq, Eq, Structural)]
pub enum OutcomeMarketsError {
    /// The market timing parameters are invalid.
    InvalidTimeRange,
    /// The amount must be greater than zero.
    InvalidAmount,
    /// The collateral mint must use 6 decimals.
    InvalidCollateralMintDecimals,
    /// This market has already ended.
    MarketAlreadyEnded,
    /// This market has already been resolved.
    MarketAlreadyResolved,
    /// This market has not been resolved.
    MarketNotResolved,
    /// The market is no longer open for splitting.
    MarketClosedForSplits,
    /// The market start time has not been reached yet.
    MarketStartTimeNotReached,
    /// The market end time has not been reached yet.
    MarketEndTimeNotReached,
    /// The start price has already been set.
    StartPriceAlreadySet,
    /// The start price has not been set.
    StartPriceNotSet,
    /// This market type does not use a start price.
    StartPriceNotSupported,
    /// The provided oracle update is before the required market timestamp.
    OracleUpdateTooEarly,
    /// The provided oracle update is invalid for this market.
    InvalidPriceUpdate,
    /// The provided oracle update does not have full verification.
    InsufficientPythVerification,
    /// The oracle price exponent does not match the market configuration.
    UnexpectedPriceExponent,
    /// The provided collateral mint does not match the market.
    InvalidCollateralMint,
    /// The provided YES mint does not match the market.
    InvalidYesMint,
    /// The provided NO mint does not match the market.
    InvalidNoMint,
    /// The provided outcome mint does not match the resolved outcome.
    InvalidOutcomeMint,
    /// The provided collateral vault does not match the market.
    InvalidCollateralVault,
    /// The provided collateral token account is invalid.
    InvalidCollateralAccount,
    /// The provided YES token account is invalid.
    InvalidYesTokenAccount,
    /// The provided NO token account is invalid.
    InvalidNoTokenAccount,
    /// The provided outcome token account is invalid.
    InvalidOutcomeTokenAccount,
    /// The token account owner is invalid.
    InvalidTokenOwner,
    /// The price bounds for this market type are invalid.
    InvalidPriceBounds,
    /// The provided mint is not the mint of the requested outcome side.
    InvalidOutcomeSide,
    /// The metadata name is too long.
    MetadataNameTooLong,
    /// The metadata symbol is too long.
    MetadataSymbolTooLong,
    /// The metadata URI is too long.
    MetadataUriTooLong,
}

} // verus!
