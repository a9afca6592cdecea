use vstd::prelude::*;

verus! {

use crate::base::{CurveType, SwapCurve};
use crate::constant_product::ConstantProductCurve;
use crate::error::SwapError;
use crate::fees::CurveFees;

/// Fee schedule as supplied by the surrounding layer: eight raw 64-bit
/// numerator/denominator values, validated when a pool is configured.
#[derive(Clone, Copy, Debug, PartialEq, Eq, Structural, Default)]
pub struct FeesInput {
    pub trade_fee_numerator: u64,
    pub trade_fee_denominator: u64,
    pub owner_trade_fee_numerator: u64,
    pub owner_trade_fee_denominator: u64,
    pub owner_withdraw_fee_numerator: u64,
    pub owner_withdraw_fee_denominator: u64,
    pub host_fee_numerator: u64,
    pub host_fee_denominator: u64,
}

/// Curve configuration as supplied by the surrounding layer: a discriminant
/// byte selecting the variant, and an opaque parameter word whose meaning is
/// variant-specific (unused by the constant-product variant).
#[derive(Clone, Copy, Debug, PartialEq, Eq, Structural, Default)]
pub struct CurveInput {
    pub curve_type: u8,
    pub curve_parameters: u64,
}

/// Builds the curve object for a configuration. Only the constant-product
/// discriminant (zero) names an implemented variant.
pub fn build_curve(curve_input: &CurveInput) -> (r: Result<SwapCurve, SwapError>)
    ensures
        r == (if curve_input.curve_type == 0 {
            Ok::<SwapCurve, SwapError>(
                SwapCurve {
                    curve_type: CurveType::ConstantProduct,
                    calculator: ConstantProductCurve {},
                },
            )
        } else {
            Err::<SwapCurve, SwapError>(SwapError::InvalidCurve)
        }),
{
    if curve_input.curve_type == 0 {
        Ok(
            SwapCurve {
                curve_type: CurveType::ConstantProduct,
                calculator: ConstantProductCurve {},
            },
        )
    } else {
        Err(SwapError::InvalidCurve)
    }
}

/// Builds the fee object for a configuration, field for field.
pub fn build_fees(fees_input: &FeesInput) -> (r: Result<CurveFees, SwapError>)
    ensures
        r == Ok::<CurveFees, SwapError>(
            CurveFees {
                trade_fee_numerator: fees_input.trade_fee_numerator,
                trade_fee_denominator: fees_input.trade_fee_denominator,
                owner_trade_fee_numerator: fees_input.owner_trade_fee_numerator,
                owner_trade_fee_denominator: fees_input.owner_trade_fee_denominator,
                owner_withdraw_fee_numerator: fees_input.owner_withdraw_fee_numerator,
                owner_withdraw_fee_denominator: fees_input.owner_withdraw_fee_denominator,
                host_fee_numerator: fees_input.host_fee_numerator,
                host_fee_denominator: fees_input.host_fee_denominator,
            },
        ),
{
    Ok(
        CurveFees {
            trade_fee_numerator: fees_input.trade_fee_numerator,
            trade_fee_denominator: fees_input.trade_fee_denominator,
            owner_trade_fee_numerator: fees_input.owner_trade_fee_numerator,
            owner_trade_fee_denominator: fees_input.owner_trade_fee_denominator,
            owner_withdraw_fee_numerator: fees_input.owner_withdraw_fee_numerator,
            owner_withdraw_fee_denominator: fees_input.owner_withdraw_fee_denominator,
            host_fee_numerator: fees_input.host_fee_numerator,
            host_fee_denominator: fees_input.host_fee_denominator,
        },
    )
}

} // verus!
