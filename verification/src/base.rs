use vstd::prelude::*;

verus! {

use crate::calculator::{SwapWithoutFeesResult, TradeDirection};
use crate::constant_product::{
    lemma_swap_preserves_invariant,
    lemma_new_destination_reserve_bounds, spec_new_destination_reserve, spec_source_reserve,
    ConstantProductCurve,
};
use crate::fees::{spec_fee, spec_pre_fee, CurveFees};
use crate::math::{lemma_ceil_div_bounds, lemma_fraction_floor_bounds, lemma_u64_mul_in_range, spec_ceil_div};

/// Discriminant selecting the curve variant. Adding a variant extends this
/// enumeration and every exhaustive match over it.
#[derive(Clone, Copy, Debug, PartialEq, Eq, Structural)]
pub enum CurveType {
    ConstantProduct,
}

/// A curve variant paired with its calculator: the capability interface the
/// four high-level operations are built on.
#[derive(Clone, Copy, Debug, PartialEq, Eq, Structural)]
pub struct SwapCurve {
    pub curve_type: CurveType,
    pub calculator: ConstantProductCurve,
}

/// Outcome of a trade: the amounts moved, the post-trade reserves, and the
/// two fee portions assessed on the input.
#[derive(Clone, Copy, Debug, PartialEq, Eq, Structural)]
pub struct SwapResult {
    /// Source-side reserve after the trade (the owner fee is routed out of
    /// the pool rather than added to the reserve).
    pub new_swap_source_amount: u64,
    /// Destination-side reserve after the trade.
    pub new_swap_destination_amount: u64,
    /// Amount taken from the trader's source account.
    pub source_amount_swapped: u64,
    /// Amount delivered to the trader's destination account.
    pub destination_amount_swapped: u64,
    /// Portion of the input retained as trading fee.
    pub trade_fee: u64,
    /// Portion of the input earmarked for the pool owner.
    pub owner_fee: u64,
}

/// Half an amount, floor-rounded but never less than one: the basis on which
/// single-sided operations are charged the trading fee, reflecting the
/// imbalance they create.
pub open spec fn spec_half(amount: int) -> int {
    if amount / 2 == 0 {
        1
    } else {
        amount / 2
    }
}

/// Net contribution of a single-sided deposit once the trading fee on half
/// the amount has been deducted.
pub open spec fn spec_deposit_net(amount: int, fees: CurveFees) -> int {
    amount - spec_fee(
        spec_half(amount),
        fees.trade_fee_numerator as int,
        fees.trade_fee_denominator as int,
    )
}

/// Gross amount a single-sided withdrawal must extract so that, after the
/// trading fee on half of it, exactly `amount` reaches the withdrawer.
pub open spec fn spec_withdraw_gross(amount: int, fees: CurveFees) -> int {
    amount - spec_half(amount) + spec_pre_fee(
        spec_half(amount),
        fees.trade_fee_numerator as int,
        fees.trade_fee_denominator as int,
    )
}

/// A one-hundred-percent trading fee has no finite gross-up.
pub open spec fn spec_gross_up_fails(fees: CurveFees) -> bool {
    fees.trade_fee_numerator == fees.trade_fee_denominator && fees.trade_fee_numerator > 0
}

impl SwapCurve {
    /// Exact-input swap along the curve. Deducts the trading fee from the
    /// input, trades the remainder, routes the owner fee out of the pool,
    /// and reports the amounts moved together with both post-trade reserves.
    /// Fails exactly when the deliverable amount is zero or the new source
    /// reserve leaves the 64-bit range.
    pub fn swap(
        &self,
        source_amount: u64,
        swap_source_amount: u64,
        swap_destination_amount: u64,
        trade_direction: TradeDirection,
        fees: &CurveFees,
    ) -> (r: Option<SwapResult>)
        requires
            fees.valid(),
            swap_source_amount > 0,
            swap_destination_amount > 0,
        ensures
            ({
                let trade_fee = spec_fee(
                    source_amount as int,
                    fees.trade_fee_numerator as int,
                    fees.trade_fee_denominator as int,
                );
                let owner_fee = spec_fee(
                    source_amount as int,
                    fees.owner_trade_fee_numerator as int,
                    fees.owner_trade_fee_denominator as int,
                );
                let net_input = source_amount - trade_fee;
                let new_destination_reserve = spec_new_destination_reserve(
                    net_input,
                    swap_source_amount as int,
                    swap_destination_amount as int,
                );
                let destination_amount = swap_destination_amount - new_destination_reserve;
                let new_source_reserve = swap_source_amount + source_amount - owner_fee;
                &&& 0 <= trade_fee <= source_amount
                &&& 0 <= owner_fee <= source_amount
                &&& 1 <= new_destination_reserve <= swap_destination_amount
                &&& if destination_amount == 0 || new_source_reserve > u64::MAX {
                    r is None
                } else {
                    r == Some(
                        SwapResult {
                            new_swap_source_amount: new_source_reserve as u64,
                            new_swap_destination_amount: new_destination_reserve as u64,
                            source_amount_swapped: source_amount,
                            destination_amount_swapped: destination_amount as u64,
                            trade_fee: trade_fee as u64,
                            owner_fee: owner_fee as u64,
                        },
                    )
                }
            }),
    {
        let trade_fee = fees.trading_fee(source_amount);
        let owner_fee = fees.owner_trading_fee(source_amount);
        let net_input = source_amount - trade_fee;
        proof {
            lemma_new_destination_reserve_bounds(
                net_input as int,
                swap_source_amount as int,
                swap_destination_amount as int,
            );
        }
        let traded = match self.curve_type {
            CurveType::ConstantProduct => self.calculator.swap_without_fees(
                net_input,
                swap_source_amount,
                swap_destination_amount,
            ),
        };
        let traded: SwapWithoutFeesResult = match traded {
            Some(t) => t,
            None => {
                return None;
            },
        };
        let new_source_wide: u128 = swap_source_amount as u128 + source_amount as u128
            - owner_fee as u128;
        if new_source_wide > u64::MAX as u128 {
            return None;
        }
        let new_destination = swap_destination_amount - traded.destination_amount_swapped;
        Some(
            SwapResult {
                new_swap_source_amount: new_source_wide as u64,
                new_swap_destination_amount: new_destination,
                source_amount_swapped: source_amount,
                destination_amount_swapped: traded.destination_amount_swapped,
                trade_fee: trade_fee,
                owner_fee: owner_fee,
            },
        )
    }

    /// Shares minted for a single-sided deposit: the amount is first reduced
    /// by the trading fee on half of it (the imbalance charge), then spread
    /// over the direction's reserve at the going share rate, rounded down.
    /// A zero deposit mints zero shares.
    pub fn deposit_single_token_type(
        &self,
        source_amount: u64,
        swap_token_a_amount: u64,
        swap_token_b_amount: u64,
        pool_supply: u64,
        trade_direction: TradeDirection,
        fees: &CurveFees,
    ) -> (r: Option<u64>)
        requires
            fees.valid(),
        ensures
            ({
                let reserve = spec_source_reserve(
                    trade_direction,
                    swap_token_a_amount as int,
                    swap_token_b_amount as int,
                );
                let minted = pool_supply as int * spec_deposit_net(source_amount as int, *fees)
                    / reserve;
                if source_amount == 0 {
                    r == Some(0u64)
                } else if reserve == 0 {
                    r is None
                } else if minted > u64::MAX {
                    r is None
                } else {
                    &&& 0 <= minted
                    &&& r == Some(minted as u64)
                }
            }),
    {
        if source_amount == 0 {
            return Some(0);
        }
        let half_raw = source_amount / 2;
        let half_source = if half_raw == 0 {
            1u64
        } else {
            half_raw
        };
        let imbalance_fee = fees.trading_fee(half_source);
        let net_amount = source_amount - imbalance_fee;
        match self.curve_type {
            CurveType::ConstantProduct => self.calculator.deposit_single_token_type(
                net_amount,
                swap_token_a_amount,
                swap_token_b_amount,
                pool_supply,
                trade_direction,
            ),
        }
    }

    /// Shares that must be burned to deliver exactly `source_amount` of one
    /// asset: the delivery is grossed up by the trading fee on half of it,
    /// and the share cost of the grossed amount is rounded up so the pool
    /// never under-collects. Fails when the fee has no finite gross-up or
    /// the grossed amount exceeds the reserve. A zero delivery costs zero.
    pub fn withdraw_single_token_type_exact_out(
        &self,
        source_amount: u64,
        swap_token_a_amount: u64,
        swap_token_b_amount: u64,
        pool_supply: u64,
        trade_direction: TradeDirection,
        fees: &CurveFees,
    ) -> (r: Option<u64>)
        requires
            fees.valid(),
        ensures
            ({
                let reserve = spec_source_reserve(
                    trade_direction,
                    swap_token_a_amount as int,
                    swap_token_b_amount as int,
                );
                let grossed = spec_withdraw_gross(source_amount as int, *fees);
                if source_amount == 0 {
                    r == Some(0u64)
                } else if spec_gross_up_fails(*fees) {
                    r is None
                } else if grossed > reserve {
                    r is None
                } else {
                    &&& r == Some(
                        spec_ceil_div(pool_supply as int * grossed, reserve) as u64,
                    )
                    &&& 0 <= spec_ceil_div(pool_supply as int * grossed, reserve)
                        <= pool_supply
                }
            }),
    {
        if source_amount == 0 {
            return Some(0);
        }
        let half_raw = source_amount / 2;
        let half_source = if half_raw == 0 {
            1u64
        } else {
            half_raw
        };
        let pre_fee_amount = match fees.pre_trading_fee_amount(half_source) {
            Some(p) => p,
            None => {
                return None;
            },
        };
        proof {
            if fees.trade_fee_numerator > 0 && fees.trade_fee_denominator > 0 {
                lemma_u64_mul_in_range(
                    half_source as int,
                    fees.trade_fee_denominator as int,
                );
                lemma_ceil_div_bounds(
                    half_source as int * fees.trade_fee_denominator as int,
                    fees.trade_fee_denominator as int - fees.trade_fee_numerator as int,
                );
            }
        }
        let grossed: u128 = (source_amount - half_source) as u128 + pre_fee_amount;
        match self.curve_type {
            CurveType::ConstantProduct => self.calculator.withdraw_single_token_type_exact_out(
                grossed,
                swap_token_a_amount,
                swap_token_b_amount,
                pool_supply,
                trade_direction,
            ),
        }
    }
}

/// Invariant non-decrease through the full fee accounting: whenever a swap
/// succeeds and the owner fee routed out of the pool does not exceed the
/// trading fee kept in it, the product of the post-trade reserves is at
/// least the product of the pre-trade reserves.
pub proof fn lemma_swap_invariant_non_decrease(
    source_amount: int,
    swap_source_amount: int,
    swap_destination_amount: int,
    fees: CurveFees,
)
    requires
        0 < swap_source_amount,
        0 < swap_destination_amount,
        0 <= source_amount,
        fees.valid(),
        spec_fee(
            source_amount,
            fees.owner_trade_fee_numerator as int,
            fees.owner_trade_fee_denominator as int,
        ) <= spec_fee(
            source_amount,
            fees.trade_fee_numerator as int,
            fees.trade_fee_denominator as int,
        ),
    ensures
        ({
            let trade_fee = spec_fee(
                source_amount,
                fees.trade_fee_numerator as int,
                fees.trade_fee_denominator as int,
            );
            let owner_fee = spec_fee(
                source_amount,
                fees.owner_trade_fee_numerator as int,
                fees.owner_trade_fee_denominator as int,
            );
            (swap_source_amount + source_amount - owner_fee) * spec_new_destination_reserve(
                source_amount - trade_fee,
                swap_source_amount,
                swap_destination_amount,
            ) >= swap_source_amount * swap_destination_amount
        }),
{
    let trade_fee = spec_fee(
        source_amount,
        fees.trade_fee_numerator as int,
        fees.trade_fee_denominator as int,
    );
    let owner_fee = spec_fee(
        source_amount,
        fees.owner_trade_fee_numerator as int,
        fees.owner_trade_fee_denominator as int,
    );
    if fees.trade_fee_denominator > 0 {
        lemma_fraction_floor_bounds(
            source_amount,
            fees.trade_fee_numerator as int,
            fees.trade_fee_denominator as int,
        );
    }
    lemma_swap_preserves_invariant(
        source_amount - trade_fee,
        source_amount - owner_fee,
        swap_source_amount,
        swap_destination_amount,
    );
}

} // verus!
