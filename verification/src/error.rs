//! Error kinds surfaced by the fee store and the weight table.

use vstd::prelude::*;

verus! {

/// Every failure the tip router core can report. Each variant keeps the
/// protocol-level numeric code it is known by on the wire; see
/// [`JitoTipRouterError::error_code`].
#[derive(Clone, Copy, Debug, PartialEq, Eq)]
pub enum JitoTipRouterError {
    /// Zero in the denominator
    DenominatorIsZero,
    /// Overflow
    ArithmeticOverflow,
    /// Modulo Overflow
    ModuloOverflow,
    /// New precise number error
    NewPreciseNumberError,
    /// Cast to imprecise number error
    CastToImpreciseNumberError,
    /// Incorrect weight table admin
    IncorrectWeightTableAdmin,
    /// Duplicate mints in table
    DuplicateMintsInTable,
    /// There are no mints in the table
    NoMintsInTable,
    /// Too many mints for table
    TooManyMintsForTable,
    /// Weight table already initialized
    WeightTableAlreadyInitialized,
    /// Cannot create future weight tables
    CannotCreateFutureWeightTables,
    /// Weight mints do not match - length
    WeightMintsDoNotMatchLength,
    /// Weight mints do not match - mint hash
    WeightMintsDoNotMatchMintHash,
    /// Invalid mint for weight table
    InvalidMintForWeightTable,
    /// Config supported mints do not match NCN vault count
    ConfigMintsNotUpdated,
    /// NCN config vaults are at capacity
    ConfigMintListFull,
    /// Fee cap exceeded
    FeeCapExceeded,
    /// Incorrect NCN admin
    IncorrectNcnAdmin,
    /// Incorrect NCN
    IncorrectNcn,
    /// Incorrect fee admin
    IncorrectFeeAdmin,
}

impl JitoTipRouterError {
    /// The protocol-level code for each error kind.
    pub open spec fn spec_error_code(self) -> u32 {
        match self {
            JitoTipRouterError::DenominatorIsZero => 0x2100,
            JitoTipRouterError::ArithmeticOverflow => 0x2101,
            JitoTipRouterError::ModuloOverflow => 0x2102,
            JitoTipRouterError::NewPreciseNumberError => 0x2103,
            JitoTipRouterError::CastToImpreciseNumberError => 0x2104,
            JitoTipRouterError::IncorrectWeightTableAdmin => 0x2200,
            JitoTipRouterError::DuplicateMintsInTable => 0x2201,
            JitoTipRouterError::NoMintsInTable => 0x2202,
            JitoTipRouterError::TooManyMintsForTable => 0x2203,
            JitoTipRouterError::WeightTableAlreadyInitialized => 0x2204,
            JitoTipRouterError::CannotCreateFutureWeightTables => 0x2205,
            JitoTipRouterError::WeightMintsDoNotMatchLength => 0x2206,
            JitoTipRouterError::WeightMintsDoNotMatchMintHash => 0x2207,
            JitoTipRouterError::InvalidMintForWeightTable => 0x2208,
            JitoTipRouterError::ConfigMintsNotUpdated => 0x2209,
            JitoTipRouterError::ConfigMintListFull => 0x220A,
            JitoTipRouterError::FeeCapExceeded => 0x2300,
            JitoTipRouterError::IncorrectNcnAdmin => 0x2400,
            JitoTipRouterError::IncorrectNcn => 0x2401,
            JitoTipRouterError::IncorrectFeeAdmin => 0x2402,
        }
    }

    /// Numeric code under which this error is reported to the surrounding
    /// execution environment.
    pub fn error_code(&self) -> (code: u32)
        ensures
            code == self.spec_error_code(),
    {
        match self {
            JitoTipRouterError::DenominatorIsZero => 0x2100,
            JitoTipRouterError::ArithmeticOverflow => 0x2101,
            JitoTipRouterError::ModuloOverflow => 0x2102,
            JitoTipRouterError::NewPreciseNumberError => 0x2103,
            JitoTipRouterError::CastToImpreciseNumberError => 0x2104,
            JitoTipRouterError::IncorrectWeightTableAdmin => 0x2200,
            JitoTipRouterError::DuplicateMintsInTable => 0x2201,
            JitoTipRouterError::NoMintsInTable => 0x2202,
            JitoTipRouterError::TooManyMintsForTable => 0x2203,
            JitoTipRouterError::WeightTableAlreadyInitialized => 0x2204,
            JitoTipRouterError::CannotCreateFutureWeightTables => 0x2205,
            JitoTipRouterError::WeightMintsDoNotMatchLength => 0x2206,
            JitoTipRouterError::WeightMintsDoNotMatchMintHash => 0x2207,
            JitoTipRouterError::InvalidMintForWeightTable => 0x2208,
            JitoTipRouterError::ConfigMintsNotUpdated => 0x2209,
            JitoTipRouterError::ConfigMintListFull => 0x220A,
            JitoTipRouterError::FeeCapExceeded => 0x2300,
            JitoTipRouterError::IncorrectNcnAdmin => 0x2400,
            JitoTipRouterError::IncorrectNcn => 0x2401,
            JitoTipRouterError::IncorrectFeeAdmin => 0x2402,
        }
    }
}

} // verus!
