use vstd::prelude::*;

verus! {

/// Failure outcome of a pool operation. Every public operation either
/// completes fully or reports one of these reasons; no partial result is
/// ever produced.
#[derive(Clone, Copy, Debug, PartialEq, Eq, Structural)]
pub enum SwapError {
    /// The curve discriminant does not name an implemented curve variant.
    InvalidCurve,
    /// A fee fraction exceeds one (numerator greater than denominator).
    InvalidFee,
    /// A pool cannot be bootstrapped while either initial reserve is empty.
    EmptySupply,
    /// The operation would move zero of a required asset.
    ZeroTradingTokens,
    /// A computed amount violates the caller's minimum or maximum bound.
    ExceededSlippage,
    /// Arithmetic failure: a computed total leaves the 64-bit range.
    CalculationFailure,
    /// A fee amount could not be computed (for instance the gross-up of a
    /// one-hundred-percent trading fee).
    FeeCalculationFailure,
    /// The curve variant does not permit the requested operation.
    UnsupportedCurveOperation,
}

} // verus!
