use vstd::prelude::*;

verus! {

/// Errors that the exchange itself raises.
#[derive(Clone, Copy, Debug, PartialEq, Eq, Structural)]
pub enum FloatingOddsExchangeError {
    /// Outcome must be from range 0 - 3
    InvalidOutcome,
    /// Mint metadata fields cannot be empty
    InvalidMintMetadata,
    /// Market has not been launched
    MarketNotLaunched,
    /// Market cannot be launched again
    MarketAlreadyLaunched,
    /// Market has already been resolved
    MarketAlreadyResolved,
    /// Market is paused
    MarketPaused,
    /// Market has not been resolved
    MarketNotResolved,
    /// Market can only be resolved as 'Yes', 'No', or 'Refunded'
    MarketIsAlreadyUndecided,
    /// Market authority does not match
    UnauthorizedAuthority,
    /// Pot mint must not be freezable
    PotMintFreezable,
    /// Buy mint does not match
    InvalidMint,
    /// Token account not initialized
    TokenAccountNotInitialized,
    /// Amount cannot be zero or negative
    InvalidAmount,
    /// Slippage exceeded
    SlippageExceeded,
    /// Out amount cannot be zero
    InsufficientLiquidity,
    /// Invalid metadata
    InvalidMetadata,
    /// Cannot convert to UTF-8 string
    InvalidUtf8String,
    /// Arithmetic overflow
    ArithmeticOverflow,
}

impl FloatingOddsExchangeError {
    /// Position of the variant in the declaration, starting at 0.
    pub open spec fn index(self) -> nat {
        match self {
            FloatingOddsExchangeError::InvalidOutcome => 0,
            FloatingOddsExchangeError::InvalidMintMetadata => 1,
            FloatingOddsExchangeError::MarketNotLaunched => 2,
            FloatingOddsExchangeError::MarketAlreadyLaunched => 3,
            FloatingOddsExchangeError::MarketAlreadyResolved => 4,
            FloatingOddsExchangeError::MarketPaused => 5,
            FloatingOddsExchangeError::MarketNotResolved => 6,
            FloatingOddsExchangeError::MarketIsAlreadyUndecided => 7,
            FloatingOddsExchangeError::UnauthorizedAuthority => 8,
            FloatingOddsExchangeError::PotMintFreezable => 9,
            FloatingOddsExchangeError::InvalidMint => 10,
            FloatingOddsExchangeError::TokenAccountNotInitialized => 11,
            FloatingOddsExchangeError::InvalidAmount => 12,
            FloatingOddsExchangeError::SlippageExceeded => 13,
            FloatingOddsExchangeError::InsufficientLiquidity => 14,
            FloatingOddsExchangeError::InvalidMetadata => 15,
            FloatingOddsExchangeError::InvalidUtf8String => 16,
            FloatingOddsExchangeError::ArithmeticOverflow => 17,
        }
    }

    /// The custom program error code: the variant's position.
    pub fn code(&self) -> (c: u32)
        ensures
            c == self.index(),
    {
        match self {
            FloatingOddsExchangeError::InvalidOutcome => 0,
            FloatingOddsExchangeError::InvalidMintMetadata => 1,
            FloatingOddsExchangeError::MarketNotLaunched => 2,
            FloatingOddsExchangeError::MarketAlreadyLaunched => 3,
            FloatingOddsExchangeError::MarketAlreadyResolved => 4,
            FloatingOddsExchangeError::MarketPaused => 5,
            FloatingOddsExchangeError::MarketNotResolved => 6,
            FloatingOddsExchangeError::MarketIsAlreadyUndecided => 7,
            FloatingOddsExchangeError::UnauthorizedAuthority => 8,
            FloatingOddsExchangeError::PotMintFreezable => 9,
            FloatingOddsExchangeError::InvalidMint => 10,
            FloatingOddsExchangeError::TokenAccountNotInitialized => 11,
            FloatingOddsExchangeError::InvalidAmount => 12,
            FloatingOddsExchangeError::SlippageExceeded => 13,
            FloatingOddsExchangeError::InsufficientLiquidity => 14,
            FloatingOddsExchangeError::InvalidMetadata => 15,
            FloatingOddsExchangeError::InvalidUtf8String => 16,
            FloatingOddsExchangeError::ArithmeticOverflow => 17,
        }
    }
}

/// Failures of checked integer and fixed-point arithmetic.
#[derive(Clone, Copy, Debug, PartialEq, Eq, Structural)]
pub enum MathError {
    /// The result exceeded the largest value of its type, or a divisor was zero.
    Overflow,
    /// The result went below zero.
    Underflow,
    /// A value did not fit the target integer type.
    ConversionFailed,
}

impl MathError {
    /// The custom program error code of the failure.
    pub fn code(&self) -> (c: u32)
        ensures
            c == match self {
                MathError::Overflow => 9000u32,
                MathError::Underflow => 9001u32,
                MathError::ConversionFailed => 9002u32,
            },
    {
        match self {
            MathError::Overflow => 9000,
            MathError::Underflow => 9001,
            MathError::ConversionFailed => 9002,
        }
    }
}

/// Failures of basis-point validation.
#[derive(Clone, Copy, Debug, PartialEq, Eq, Structural)]
pub enum BasisPointsError {
    /// Basis points must be at most 10 000.
    InvalidBasisPoints,
    /// A value could not be converted to basis points.
    ConversionFailed,
}

/// Why an instruction of the exchange fails.
#[derive(Clone, Copy, Debug, PartialEq, Eq, Structural)]
pub enum ProgramError {
    /// A rule of the exchange was broken.
    Exchange(FloatingOddsExchangeError),
    /// Checked arithmetic failed.
    Math(MathError),
    /// A fee rate was out of range.
    BasisPoints(BasisPointsError),
    /// An account is not the address derived from the market's seeds.
    InvalidSeeds,
}

} // verus!
