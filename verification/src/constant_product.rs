use vstd::prelude::*;

verus! {

use vstd::arithmetic::div_mod::{lemma_div_by_multiple, lemma_div_is_ordered};
use crate::calculator::{RoundDirection, SwapWithoutFeesResult, TradeDirection, TradingTokenResult};
use crate::error::SwapError;
use crate::math::{
    ceil_div_u128, lemma_ceil_div_bounds, lemma_ceil_div_ge, lemma_ceil_div_le,
    lemma_u64_mul_in_range, mul_u64, spec_ceil_div,
};

/// Share supply minted when a pool transitions from empty to funded: a fixed
/// constant, independent of the deposited amounts, establishing the genesis
/// exchange rate between one share and the share token's precision.
pub const INITIAL_SWAP_POOL_AMOUNT: u64 = 1_000_000_000;

/// The constant-product curve: trades move along `reserve_in * reserve_out == k`.
#[derive(Clone, Copy, Debug, PartialEq, Eq, Structural)]
pub struct ConstantProductCurve {}

/// The destination-side reserve after a trade that adds `net_input` to the
/// source side: `ceil(reserve_in * reserve_out / (reserve_in + net_input))`.
/// Rounding the kept reserve up (rather than the paid-out amount) is what
/// guarantees the product of the reserves never decreases.
pub open spec fn spec_new_destination_reserve(net_input: int, reserve_in: int, reserve_out: int) -> int {
    spec_ceil_div(reserve_in * reserve_out, reserve_in + net_input)
}

/// Amount paid out of the destination reserve for a trade with the given
/// net (post-fee) input.
pub open spec fn spec_swap_destination_amount(net_input: int, reserve_in: int, reserve_out: int) -> int {
    reserve_out - spec_new_destination_reserve(net_input, reserve_in, reserve_out)
}

/// The proportional claim of `pool_tokens` shares on one reserve, rounded
/// per the given direction.
pub open spec fn spec_tokens_for_shares(
    round: RoundDirection,
    pool_tokens: int,
    supply: int,
    reserve: int,
) -> int {
    match round {
        RoundDirection::Floor => pool_tokens * reserve / supply,
        RoundDirection::Ceiling => spec_ceil_div(pool_tokens * reserve, supply),
    }
}

/// The reserve the trade direction sells into (or, for single-sided
/// operations, the reserve of the asset being moved).
pub open spec fn spec_source_reserve(direction: TradeDirection, reserve_a: int, reserve_b: int) -> int {
    match direction {
        TradeDirection::AtoB => reserve_a,
        TradeDirection::BtoA => reserve_b,
    }
}

impl ConstantProductCurve {
    /// The constant-product variant has no parameters to validate.
    pub fn validate(&self) -> (r: Result<(), SwapError>)
        ensures
            r == Ok::<(), SwapError>(()),
    {
        Ok(())
    }

    /// A pool cannot be bootstrapped while either side is empty.
    pub fn validate_supply(&self, token_a_amount: u64, token_b_amount: u64) -> (r: Result<
        (),
        SwapError,
    >)
        ensures
            r == (if token_a_amount == 0 || token_b_amount == 0 {
                Err::<(), SwapError>(SwapError::EmptySupply)
            } else {
                Ok::<(), SwapError>(())
            }),
    {
        if token_a_amount == 0 {
            return Err(SwapError::EmptySupply);
        }
        if token_b_amount == 0 {
            return Err(SwapError::EmptySupply);
        }
        Ok(())
    }

    /// Genesis fixed rate: the initial share supply is the same constant for
    /// every funded pool, whatever the initial reserve amounts are.
    pub fn new_pool_supply(&self) -> (r: u64)
        ensures
            r == INITIAL_SWAP_POOL_AMOUNT,
    {
        INITIAL_SWAP_POOL_AMOUNT
    }

    /// The constant-product curve supports two-sided and single-sided
    /// deposits and withdrawals.
    pub fn allows_deposits(&self) -> (r: bool)
        ensures
            r,
    {
        true
    }

    /// Exact-input trade along the invariant. Takes the net (post-fee) input
    /// and both nonempty reserves; pays out the destination reserve's excess
    /// over `ceil(k / (reserve_in + net_input))`. Fails exactly when that
    /// excess is zero (the trade is too small to deliver anything).
    pub fn swap_without_fees(
        &self,
        source_amount: u64,
        swap_source_amount: u64,
        swap_destination_amount: u64,
    ) -> (r: Option<SwapWithoutFeesResult>)
        requires
            swap_source_amount > 0,
            swap_destination_amount > 0,
        ensures
            ({
                let out = spec_swap_destination_amount(
                    source_amount as int,
                    swap_source_amount as int,
                    swap_destination_amount as int,
                );
                if out == 0 {
                    r is None
                } else {
                    r == Some(
                        SwapWithoutFeesResult {
                            source_amount_swapped: source_amount,
                            destination_amount_swapped: out as u64,
                        },
                    )
                }
            }),
    {
        let invariant_k = mul_u64(swap_source_amount, swap_destination_amount);
        let new_source: u128 = swap_source_amount as u128 + source_amount as u128;
        proof {
            lemma_u64_mul_in_range(swap_source_amount as int, swap_destination_amount as int);
            lemma_new_destination_reserve_bounds(
                source_amount as int,
                swap_source_amount as int,
                swap_destination_amount as int,
            );
        }
        let new_destination = ceil_div_u128(invariant_k, new_source);
        let destination_amount_swapped = swap_destination_amount as u128 - new_destination;
        if destination_amount_swapped == 0 {
            None
        } else {
            Some(
                SwapWithoutFeesResult {
                    source_amount_swapped: source_amount,
                    destination_amount_swapped: destination_amount_swapped as u64,
                },
            )
        }
    }

    /// Converts a share quantity into its proportional claim on each
    /// reserve. Fails when the share supply is zero or either proportional
    /// amount falls outside the 64-bit range.
    pub fn pool_tokens_to_trading_tokens(
        &self,
        pool_tokens: u64,
        pool_token_supply: u64,
        swap_token_a_amount: u64,
        swap_token_b_amount: u64,
        round_direction: RoundDirection,
    ) -> (r: Option<TradingTokenResult>)
        ensures
            pool_token_supply == 0 ==> r is None,
            pool_token_supply > 0 ==> ({
                let ta = spec_tokens_for_shares(
                    round_direction,
                    pool_tokens as int,
                    pool_token_supply as int,
                    swap_token_a_amount as int,
                );
                let tb = spec_tokens_for_shares(
                    round_direction,
                    pool_tokens as int,
                    pool_token_supply as int,
                    swap_token_b_amount as int,
                );
                if ta > u64::MAX || tb > u64::MAX {
                    r is None
                } else {
                    &&& 0 <= ta
                    &&& 0 <= tb
                    &&& r == Some(
                        TradingTokenResult {
                            token_a_amount: ta as u64,
                            token_b_amount: tb as u64,
                        },
                    )
                }
            }),
    {
        if pool_token_supply == 0 {
            return None;
        }
        let scaled_a = mul_u64(pool_tokens, swap_token_a_amount);
        let scaled_b = mul_u64(pool_tokens, swap_token_b_amount);
        proof {
            lemma_u64_mul_in_range(pool_tokens as int, swap_token_a_amount as int);
            lemma_u64_mul_in_range(pool_tokens as int, swap_token_b_amount as int);
            lemma_ceil_div_bounds(scaled_a as int, pool_token_supply as int);
            lemma_ceil_div_bounds(scaled_b as int, pool_token_supply as int);
        }
        let supply = pool_token_supply as u128;
        let (token_a_amount, token_b_amount): (u128, u128) = match round_direction {
            RoundDirection::Floor => (scaled_a / supply, scaled_b / supply),
            RoundDirection::Ceiling => (
                ceil_div_u128(scaled_a, supply),
                ceil_div_u128(scaled_b, supply),
            ),
        };
        if token_a_amount > u64::MAX as u128 || token_b_amount > u64::MAX as u128 {
            None
        } else {
            Some(
                TradingTokenResult {
                    token_a_amount: token_a_amount as u64,
                    token_b_amount: token_b_amount as u64,
                },
            )
        }
    }

    /// Shares worth a single-sided contribution of `source_amount` (already
    /// net of the imbalance fee) into the direction's reserve: the share
    /// count an equivalent two-sided deposit covering that side would have
    /// cost, rounded down. Fails when that reserve is empty or the share
    /// count falls outside the 64-bit range.
    pub fn deposit_single_token_type(
        &self,
        source_amount: u64,
        swap_token_a_amount: u64,
        swap_token_b_amount: u64,
        pool_supply: u64,
        trade_direction: TradeDirection,
    ) -> (r: Option<u64>)
        ensures
            ({
                let reserve = spec_source_reserve(
                    trade_direction,
                    swap_token_a_amount as int,
                    swap_token_b_amount as int,
                );
                let minted = pool_supply as int * source_amount as int / reserve;
                if reserve == 0 {
                    r is None
                } else if minted > u64::MAX {
                    r is None
                } else {
                    &&& 0 <= minted
                    &&& r == Some(minted as u64)
                }
            }),
    {
        let reserve: u64 = match trade_direction {
            TradeDirection::AtoB => swap_token_a_amount,
            TradeDirection::BtoA => swap_token_b_amount,
        };
        if reserve == 0 {
            return None;
        }
        let scaled = mul_u64(pool_supply, source_amount);
        let minted = scaled / (reserve as u128);
        if minted > u64::MAX as u128 {
            None
        } else {
            Some(minted as u64)
        }
    }

    /// Shares that must be burned to extract exactly `source_amount` (already
    /// grossed up by the imbalance fee) of the direction's asset:
    /// `ceil(pool_supply * source_amount / reserve)`, rounded up so the pool
    /// never under-collects. Fails when the amount exceeds the reserve. A
    /// zero amount costs zero shares. The result never exceeds the supply.
    pub fn withdraw_single_token_type_exact_out(
        &self,
        source_amount: u128,
        swap_token_a_amount: u64,
        swap_token_b_amount: u64,
        pool_supply: u64,
        trade_direction: TradeDirection,
    ) -> (r: Option<u64>)
        ensures
            ({
                let reserve = spec_source_reserve(
                    trade_direction,
                    swap_token_a_amount as int,
                    swap_token_b_amount as int,
                );
                if source_amount == 0 {
                    r == Some(0u64)
                } else if source_amount > reserve {
                    r is None
                } else {
                    &&& r == Some(
                        spec_ceil_div(pool_supply as int * source_amount as int, reserve) as u64,
                    )
                    &&& 0 <= spec_ceil_div(pool_supply as int * source_amount as int, reserve)
                        <= pool_supply
                }
            }),
    {
        if source_amount == 0 {
            return Some(0);
        }
        let reserve: u64 = match trade_direction {
            TradeDirection::AtoB => swap_token_a_amount,
            TradeDirection::BtoA => swap_token_b_amount,
        };
        if source_amount > reserve as u128 {
            return None;
        }
        proof {
            lemma_u64_mul_in_range(pool_supply as int, source_amount as int);
            assert(pool_supply as int * source_amount as int <= pool_supply as int
                * reserve as int) by (nonlinear_arith)
                requires
                    0 <= pool_supply,
                    0 <= source_amount <= reserve;
            lemma_ceil_div_le(
                pool_supply as int * source_amount as int,
                pool_supply as int,
                reserve as int,
            );
            lemma_ceil_div_bounds(pool_supply as int * source_amount as int, reserve as int);
        }
        let scaled: u128 = (pool_supply as u128) * source_amount;
        let burned = ceil_div_u128(scaled, reserve as u128);
        Some(burned as u64)
    }
}

/// The post-trade destination reserve lies strictly between zero and the old
/// reserve (inclusive above): the pool never pays out its whole destination
/// side, and the paid amount is never negative.
pub proof fn lemma_new_destination_reserve_bounds(net_input: int, reserve_in: int, reserve_out: int)
    requires
        0 < reserve_in,
        0 < reserve_out,
        0 <= net_input,
    ensures
        1 <= spec_new_destination_reserve(net_input, reserve_in, reserve_out) <= reserve_out,
{
    let k = reserve_in * reserve_out;
    let d = reserve_in + net_input;
    assert(k > 0 && k <= reserve_out * d) by (nonlinear_arith)
        requires
            0 < reserve_in,
            0 < reserve_out,
            0 <= net_input,
            k == reserve_in * reserve_out,
            d == reserve_in + net_input;
    lemma_ceil_div_bounds(k, d);
    lemma_ceil_div_le(k, reserve_out, d);
}

/// Invariant non-decrease: as long as the pool keeps at least the net input
/// on its source side (the owner fee routed out of the pool does not exceed
/// what the fees left in), the product of the reserves after a trade is at
/// least the product before it.
pub proof fn lemma_swap_preserves_invariant(
    net_input: int,
    kept_input: int,
    reserve_in: int,
    reserve_out: int,
)
    requires
        0 < reserve_in,
        0 < reserve_out,
        0 <= net_input <= kept_input,
    ensures
        (reserve_in + kept_input) * spec_new_destination_reserve(net_input, reserve_in, reserve_out)
            >= reserve_in * reserve_out,
{
    let k = reserve_in * reserve_out;
    let d = reserve_in + net_input;
    assert(k >= 0) by (nonlinear_arith)
        requires
            0 < reserve_in,
            0 < reserve_out,
            k == reserve_in * reserve_out;
    lemma_ceil_div_bounds(k, d);
    let c = spec_ceil_div(k, d);
    assert((reserve_in + kept_input) * c >= d * c) by (nonlinear_arith)
        requires
            0 <= c,
            d <= reserve_in + kept_input;
    assert(d * c == c * d) by (nonlinear_arith);
}

/// Withdrawing every outstanding share at Floor rounding returns exactly the
/// reserve, never more: a full redemption drains the pool to zero and no
/// further.
pub proof fn lemma_full_withdrawal_returns_reserve(supply: int, reserve: int)
    requires
        0 < supply,
        0 <= reserve,
    ensures
        spec_tokens_for_shares(RoundDirection::Floor, supply, supply, reserve) == reserve,
{
    assert(supply * reserve == reserve * supply) by (nonlinear_arith);
    lemma_div_by_multiple(reserve, supply);
}

/// No free round trip: paying for `shares` at Ceiling rounding, and then
/// redeeming the same `shares` against the grown reserve and supply at Floor
/// rounding, never returns more of the reserve than was paid in.
pub proof fn lemma_deposit_withdraw_no_gain(shares: int, supply: int, reserve: int)
    requires
        0 < supply,
        0 <= shares,
        0 <= reserve,
    ensures
        spec_tokens_for_shares(
            RoundDirection::Floor,
            shares,
            supply + shares,
            reserve + spec_tokens_for_shares(RoundDirection::Ceiling, shares, supply, reserve),
        ) <= spec_tokens_for_shares(RoundDirection::Ceiling, shares, supply, reserve),
{
    let paid = spec_tokens_for_shares(RoundDirection::Ceiling, shares, supply, reserve);
    lemma_ceil_div_bounds(shares * reserve, supply);
    assert(shares * reserve >= 0) by (nonlinear_arith)
        requires
            0 <= shares,
            0 <= reserve;
    // paid * supply covers shares * reserve, so spreading the grown reserve
    // over the grown supply cannot beat what was paid.
    assert(shares * (reserve + paid) <= paid * (supply + shares)) by (nonlinear_arith)
        requires
            shares * reserve <= paid * supply,
            0 <= shares,
            0 <= paid;
    lemma_div_is_ordered(shares * (reserve + paid), paid * (supply + shares), supply + shares);
    lemma_div_by_multiple(paid, supply + shares);
}

/// No free withdrawal, in share terms: the shares that must be burned to
/// extract, from the grown pool, the whole amount that a deposit of `shares`
/// was charged (burn cost rounded up) are at least `shares` itself.
pub proof fn lemma_withdraw_shares_cover_deposit(shares: int, supply: int, reserve: int)
    requires
        0 < supply,
        0 <= shares,
        0 < reserve,
    ensures
        ({
            let paid = spec_tokens_for_shares(RoundDirection::Ceiling, shares, supply, reserve);
            spec_ceil_div((supply + shares) * paid, reserve + paid) >= shares
        }),
{
    let paid = spec_tokens_for_shares(RoundDirection::Ceiling, shares, supply, reserve);
    assert(shares * reserve >= 0) by (nonlinear_arith)
        requires
            0 <= shares,
            0 <= reserve;
    lemma_ceil_div_bounds(shares * reserve, supply);
    assert(shares * (reserve + paid) <= (supply + shares) * paid) by (nonlinear_arith)
        requires
            shares * reserve <= paid * supply,
            0 <= shares,
            0 <= paid;
    assert((supply + shares) * paid >= 0) by (nonlinear_arith)
        requires
            0 <= supply + shares,
            0 <= paid;
    lemma_ceil_div_ge((supply + shares) * paid, shares, reserve + paid);
}

} // verus!
