use vstd::prelude::*;

verus! {

use crate::base::{
    spec_deposit_net, spec_gross_up_fails, spec_withdraw_gross, SwapCurve,
};
use crate::calculator::{RoundDirection, TradeDirection};
use crate::constant_product::{
    spec_new_destination_reserve, spec_source_reserve, spec_tokens_for_shares,
    INITIAL_SWAP_POOL_AMOUNT,
};
use crate::error::SwapError;
use crate::fees::{spec_fee, CurveFees};
use crate::state::{build_curve, build_fees, CurveInput, FeesInput};
use crate::math::spec_ceil_div;

/// Everything a completed swap tells the caller: the amounts moved, the
/// post-trade reserves to persist, the fee portions, and the pool shares to
/// mint to the owner's fee account and to the optional host.
#[derive(Clone, Copy, Debug, PartialEq, Eq, Structural)]
pub struct SwapOutcome {
    pub source_amount_swapped: u64,
    pub destination_amount_swapped: u64,
    pub new_swap_source_amount: u64,
    pub new_swap_destination_amount: u64,
    pub trade_fee: u64,
    pub owner_fee: u64,
    /// Shares minted to the pool's fee account (after the host split).
    pub owner_pool_tokens: u64,
    /// Shares minted to the referrer, when one is designated.
    pub host_pool_tokens: u64,
}

/// Result of a two-sided deposit: shares minted and the reserve amounts
/// charged for them.
#[derive(Clone, Copy, Debug, PartialEq, Eq, Structural)]
pub struct DepositAllOutcome {
    pub pool_tokens_minted: u64,
    pub token_a_amount: u64,
    pub token_b_amount: u64,
}

/// Result of a two-sided withdrawal: the share fee, the shares burned, and
/// the reserve amounts returned.
#[derive(Clone, Copy, Debug, PartialEq, Eq, Structural)]
pub struct WithdrawAllOutcome {
    pub withdraw_fee: u64,
    pub pool_tokens_burned: u64,
    pub token_a_amount: u64,
    pub token_b_amount: u64,
}

/// Result of a single-sided withdrawal: the shares burned for the delivery
/// and the share fee added on top of them.
#[derive(Clone, Copy, Debug, PartialEq, Eq, Structural)]
pub struct WithdrawSingleOutcome {
    pub pool_tokens_burned: u64,
    pub withdraw_fee: u64,
}

/// Mirror of `init_pool`: configuration is validated in order (curve
/// discriminant, nonempty reserves, fee fractions); a valid pool mints the
/// fixed genesis supply.
pub open spec fn spec_init_pool(
    curve_type: int,
    fees: CurveFees,
    token_a_amount: int,
    token_b_amount: int,
) -> Result<u64, SwapError> {
    if curve_type != 0 {
        Err(SwapError::InvalidCurve)
    } else if token_a_amount == 0 || token_b_amount == 0 {
        Err(SwapError::EmptySupply)
    } else if !fees.valid() {
        Err(SwapError::InvalidFee)
    } else {
        Ok(INITIAL_SWAP_POOL_AMOUNT)
    }
}

/// Validates a pool configuration against the initial reserves and returns
/// the genesis share supply to mint. This is the single validation entry
/// point run once at pool creation, before any operation.
pub fn init_pool(
    curve_input: &CurveInput,
    fees_input: &FeesInput,
    token_a_amount: u64,
    token_b_amount: u64,
) -> (r: Result<u64, SwapError>)
    ensures
        ({
            let fees = spec_fees_of(*fees_input);
            r == spec_init_pool(
                curve_input.curve_type as int,
                fees,
                token_a_amount as int,
                token_b_amount as int,
            )
        }),
{
    let curve = match build_curve(curve_input) {
        Ok(c) => c,
        Err(e) => {
            return Err(e);
        },
    };
    match curve.calculator.validate_supply(token_a_amount, token_b_amount) {
        Ok(()) => (),
        Err(e) => {
            return Err(e);
        },
    }
    let fees = match build_fees(fees_input) {
        Ok(f) => f,
        Err(e) => {
            return Err(e);
        },
    };
    match fees.validate() {
        Ok(()) => (),
        Err(e) => {
            return Err(e);
        },
    }
    match curve.calculator.validate() {
        Ok(()) => (),
        Err(e) => {
            return Err(e);
        },
    }
    Ok(curve.calculator.new_pool_supply())
}

/// The fee schedule a raw fee configuration stands for.
pub open spec fn spec_fees_of(fees_input: FeesInput) -> CurveFees {
    CurveFees {
        trade_fee_numerator: fees_input.trade_fee_numerator,
        trade_fee_denominator: fees_input.trade_fee_denominator,
        owner_trade_fee_numerator: fees_input.owner_trade_fee_numerator,
        owner_trade_fee_denominator: fees_input.owner_trade_fee_denominator,
        owner_withdraw_fee_numerator: fees_input.owner_withdraw_fee_numerator,
        owner_withdraw_fee_denominator: fees_input.owner_withdraw_fee_denominator,
        host_fee_numerator: fees_input.host_fee_numerator,
        host_fee_denominator: fees_input.host_fee_denominator,
    }
}

/// Mirror of `swap`: trade along the curve, enforce the slippage bound,
/// convert the owner fee into pool shares against the post-trade source
/// reserve, and split out the host share.
pub open spec fn spec_swap(
    amount_in: int,
    minimum_amount_out: int,
    swap_source_amount: int,
    swap_destination_amount: int,
    pool_mint_supply: int,
    fees: CurveFees,
    has_host_fee_account: bool,
) -> Result<SwapOutcome, SwapError> {
    let trade_fee = spec_fee(
        amount_in,
        fees.trade_fee_numerator as int,
        fees.trade_fee_denominator as int,
    );
    let owner_fee = spec_fee(
        amount_in,
        fees.owner_trade_fee_numerator as int,
        fees.owner_trade_fee_denominator as int,
    );
    let new_destination_reserve = spec_new_destination_reserve(
        amount_in - trade_fee,
        swap_source_amount,
        swap_destination_amount,
    );
    let destination_amount = swap_destination_amount - new_destination_reserve;
    let new_source_reserve = swap_source_amount + amount_in - owner_fee;
    if destination_amount == 0 || new_source_reserve > u64::MAX {
        Err(SwapError::ZeroTradingTokens)
    } else if destination_amount < minimum_amount_out {
        Err(SwapError::ExceededSlippage)
    } else if owner_fee > 0 && spec_gross_up_fails(fees) {
        Err(SwapError::FeeCalculationFailure)
    } else if owner_fee > 0 && spec_withdraw_gross(owner_fee, fees) > new_source_reserve {
        Err(SwapError::FeeCalculationFailure)
    } else {
        let owner_pool_tokens = if owner_fee == 0 {
            0
        } else {
            spec_ceil_div(
                pool_mint_supply * spec_withdraw_gross(owner_fee, fees),
                new_source_reserve,
            )
        };
        let host_pool_tokens = if owner_pool_tokens > 0 && has_host_fee_account {
            spec_fee(
                owner_pool_tokens,
                fees.host_fee_numerator as int,
                fees.host_fee_denominator as int,
            )
        } else {
            0
        };
        Ok(
            SwapOutcome {
                source_amount_swapped: amount_in as u64,
                destination_amount_swapped: destination_amount as u64,
                new_swap_source_amount: new_source_reserve as u64,
                new_swap_destination_amount: new_destination_reserve as u64,
                trade_fee: trade_fee as u64,
                owner_fee: owner_fee as u64,
                owner_pool_tokens: (owner_pool_tokens - host_pool_tokens) as u64,
                host_pool_tokens: host_pool_tokens as u64,
            },
        )
    }
}

/// Exact-input swap against a funded pool. Delivers the curve's output if it
/// is nonzero and meets the slippage bound, and accounts the owner fee as
/// pool shares minted against the post-trade reserves, split with the host
/// when a referrer account is designated.
pub fn swap(
    curve: &SwapCurve,
    fees: &CurveFees,
    amount_in: u64,
    minimum_amount_out: u64,
    swap_source_amount: u64,
    swap_destination_amount: u64,
    pool_mint_supply: u64,
    trade_direction: TradeDirection,
    has_host_fee_account: bool,
) -> (r: Result<SwapOutcome, SwapError>)
    requires
        fees.valid(),
        swap_source_amount > 0,
        swap_destination_amount > 0,
    ensures
        r == spec_swap(
            amount_in as int,
            minimum_amount_out as int,
            swap_source_amount as int,
            swap_destination_amount as int,
            pool_mint_supply as int,
            *fees,
            has_host_fee_account,
        ),
        // A successful swap never moves zero: zero output is rejected, not
        // returned.
        r matches Ok(outcome) ==> outcome.destination_amount_swapped > 0,
        // Invariant non-decrease: whenever the owner fee routed out of the
        // pool does not exceed the trading fee kept in it, a successful swap
        // never lowers the product of the reserves.
        spec_fee(
            amount_in as int,
            fees.owner_trade_fee_numerator as int,
            fees.owner_trade_fee_denominator as int,
        ) <= spec_fee(
            amount_in as int,
            fees.trade_fee_numerator as int,
            fees.trade_fee_denominator as int,
        ) ==> (r matches Ok(outcome) ==> outcome.new_swap_source_amount as int
            * outcome.new_swap_destination_amount as int >= swap_source_amount as int
            * swap_destination_amount as int),
{
    let result = match curve.swap(
        amount_in,
        swap_source_amount,
        swap_destination_amount,
        trade_direction,
        fees,
    ) {
        Some(res) => res,
        None => {
            return Err(SwapError::ZeroTradingTokens);
        },
    };
    if result.destination_amount_swapped < minimum_amount_out {
        return Err(SwapError::ExceededSlippage);
    }
    let (swap_token_a_amount, swap_token_b_amount): (u64, u64) = match trade_direction {
        TradeDirection::AtoB => (
            result.new_swap_source_amount,
            result.new_swap_destination_amount,
        ),
        TradeDirection::BtoA => (
            result.new_swap_destination_amount,
            result.new_swap_source_amount,
        ),
    };
    let owner_pool_tokens = match curve.withdraw_single_token_type_exact_out(
        result.owner_fee,
        swap_token_a_amount,
        swap_token_b_amount,
        pool_mint_supply,
        trade_direction,
        fees,
    ) {
        Some(tokens) => tokens,
        None => {
            return Err(SwapError::FeeCalculationFailure);
        },
    };
    let mut minted_to_owner = owner_pool_tokens;
    let mut minted_to_host = 0u64;
    if owner_pool_tokens > 0 && has_host_fee_account {
        let host_fee = fees.host_fee(owner_pool_tokens);
        minted_to_owner = owner_pool_tokens - host_fee;
        minted_to_host = host_fee;
    }
    proof {
        if spec_fee(
            amount_in as int,
            fees.owner_trade_fee_numerator as int,
            fees.owner_trade_fee_denominator as int,
        ) <= spec_fee(
            amount_in as int,
            fees.trade_fee_numerator as int,
            fees.trade_fee_denominator as int,
        ) {
            crate::base::lemma_swap_invariant_non_decrease(
                amount_in as int,
                swap_source_amount as int,
                swap_destination_amount as int,
                *fees,
            );
        }
    }
    Ok(
        SwapOutcome {
            source_amount_swapped: result.source_amount_swapped,
            destination_amount_swapped: result.destination_amount_swapped,
            new_swap_source_amount: result.new_swap_source_amount,
            new_swap_destination_amount: result.new_swap_destination_amount,
            trade_fee: result.trade_fee,
            owner_fee: result.owner_fee,
            owner_pool_tokens: minted_to_owner,
            host_pool_tokens: minted_to_host,
        },
    )
}

/// Mirror of `deposit_all`: the requested share amount (or, on the first
/// deposit, the fixed genesis supply) is converted into reserve amounts with
/// Ceiling rounding; a zero or over-limit amount on either side rejects the
/// deposit.
pub open spec fn spec_deposit_all(
    pool_token_amount: int,
    maximum_token_a_amount: int,
    maximum_token_b_amount: int,
    pool_mint_supply: int,
    swap_token_a_amount: int,
    swap_token_b_amount: int,
) -> Result<DepositAllOutcome, SwapError> {
    let minted = if pool_mint_supply > 0 {
        pool_token_amount
    } else {
        INITIAL_SWAP_POOL_AMOUNT as int
    };
    let supply = if pool_mint_supply > 0 {
        pool_mint_supply
    } else {
        INITIAL_SWAP_POOL_AMOUNT as int
    };
    let token_a_amount = spec_tokens_for_shares(
        RoundDirection::Ceiling,
        minted,
        supply,
        swap_token_a_amount,
    );
    let token_b_amount = spec_tokens_for_shares(
        RoundDirection::Ceiling,
        minted,
        supply,
        swap_token_b_amount,
    );
    if token_a_amount > u64::MAX || token_b_amount > u64::MAX {
        Err(SwapError::ZeroTradingTokens)
    } else if token_a_amount > maximum_token_a_amount {
        Err(SwapError::ExceededSlippage)
    } else if token_a_amount == 0 {
        Err(SwapError::ZeroTradingTokens)
    } else if token_b_amount > maximum_token_b_amount {
        Err(SwapError::ExceededSlippage)
    } else if token_b_amount == 0 {
        Err(SwapError::ZeroTradingTokens)
    } else {
        Ok(
            DepositAllOutcome {
                pool_tokens_minted: minted as u64,
                token_a_amount: token_a_amount as u64,
                token_b_amount: token_b_amount as u64,
            },
        )
    }
}

/// Two-sided deposit: mints `pool_token_amount` shares (or the genesis
/// supply into an empty pool) for proportional amounts of both reserves,
/// rounded up, each capped by the caller's maximum. On the first deposit the
/// shares minted are the genesis constant whatever the reserves hold.
pub fn deposit_all(
    curve: &SwapCurve,
    pool_token_amount: u64,
    maximum_token_a_amount: u64,
    maximum_token_b_amount: u64,
    pool_mint_supply: u64,
    swap_token_a_amount: u64,
    swap_token_b_amount: u64,
) -> (r: Result<DepositAllOutcome, SwapError>)
    ensures
        r == spec_deposit_all(
            pool_token_amount as int,
            maximum_token_a_amount as int,
            maximum_token_b_amount as int,
            pool_mint_supply as int,
            swap_token_a_amount as int,
            swap_token_b_amount as int,
        ),
        // A successful deposit charges a nonzero amount of both assets.
        r matches Ok(outcome) ==> outcome.token_a_amount > 0 && outcome.token_b_amount > 0,
        // The first deposit mints the genesis supply whatever the reserves
        // hold.
        pool_mint_supply == 0 ==> (r matches Ok(outcome) ==> outcome.pool_tokens_minted
            == INITIAL_SWAP_POOL_AMOUNT),
{
    if !curve.calculator.allows_deposits() {
        return Err(SwapError::UnsupportedCurveOperation);
    }
    let (pool_tokens, supply): (u64, u64) = if pool_mint_supply > 0 {
        (pool_token_amount, pool_mint_supply)
    } else {
        (curve.calculator.new_pool_supply(), curve.calculator.new_pool_supply())
    };
    let results = match curve.calculator.pool_tokens_to_trading_tokens(
        pool_tokens,
        supply,
        swap_token_a_amount,
        swap_token_b_amount,
        RoundDirection::Ceiling,
    ) {
        Some(res) => res,
        None => {
            return Err(SwapError::ZeroTradingTokens);
        },
    };
    if results.token_a_amount > maximum_token_a_amount {
        return Err(SwapError::ExceededSlippage);
    }
    if results.token_a_amount == 0 {
        return Err(SwapError::ZeroTradingTokens);
    }
    if results.token_b_amount > maximum_token_b_amount {
        return Err(SwapError::ExceededSlippage);
    }
    if results.token_b_amount == 0 {
        return Err(SwapError::ZeroTradingTokens);
    }
    Ok(
        DepositAllOutcome {
            pool_tokens_minted: pool_tokens,
            token_a_amount: results.token_a_amount,
            token_b_amount: results.token_b_amount,
        },
    )
}

/// Mirror of `withdraw_all`: the share fee is deducted first, the remainder
/// converted into reserve amounts with Floor rounding and capped at the
/// actual reserves; a side that comes out zero while its reserve is nonzero,
/// or below the caller's minimum, rejects the withdrawal.
pub open spec fn spec_withdraw_all(
    pool_token_amount: int,
    minimum_token_a_amount: int,
    minimum_token_b_amount: int,
    pool_mint_supply: int,
    swap_token_a_amount: int,
    swap_token_b_amount: int,
    fees: CurveFees,
    fee_exempt: bool,
) -> Result<WithdrawAllOutcome, SwapError> {
    let withdraw_fee = if fee_exempt {
        0
    } else {
        spec_fee(
            pool_token_amount,
            fees.owner_withdraw_fee_numerator as int,
            fees.owner_withdraw_fee_denominator as int,
        )
    };
    let burned = pool_token_amount - withdraw_fee;
    if pool_mint_supply == 0 {
        Err(SwapError::ZeroTradingTokens)
    } else {
        let raw_a = spec_tokens_for_shares(
            RoundDirection::Floor,
            burned,
            pool_mint_supply,
            swap_token_a_amount,
        );
        let raw_b = spec_tokens_for_shares(
            RoundDirection::Floor,
            burned,
            pool_mint_supply,
            swap_token_b_amount,
        );
        if raw_a > u64::MAX || raw_b > u64::MAX {
            Err(SwapError::ZeroTradingTokens)
        } else {
            let token_a_amount = if raw_a < swap_token_a_amount {
                raw_a
            } else {
                swap_token_a_amount
            };
            let token_b_amount = if raw_b < swap_token_b_amount {
                raw_b
            } else {
                swap_token_b_amount
            };
            if token_a_amount < minimum_token_a_amount {
                Err(SwapError::ExceededSlippage)
            } else if token_a_amount == 0 && swap_token_a_amount != 0 {
                Err(SwapError::ZeroTradingTokens)
            } else if token_b_amount < minimum_token_b_amount {
                Err(SwapError::ExceededSlippage)
            } else if token_b_amount == 0 && swap_token_b_amount != 0 {
                Err(SwapError::ZeroTradingTokens)
            } else {
                Ok(
                    WithdrawAllOutcome {
                        withdraw_fee: withdraw_fee as u64,
                        pool_tokens_burned: burned as u64,
                        token_a_amount: token_a_amount as u64,
                        token_b_amount: token_b_amount as u64,
                    },
                )
            }
        }
    }
}

/// Two-sided withdrawal: assesses the owner withdraw fee (waived for the
/// pool's fee account itself), burns the remainder, and returns both
/// reserves' proportional amounts rounded down, never more than the
/// reserves hold.
pub fn withdraw_all(
    curve: &SwapCurve,
    fees: &CurveFees,
    pool_token_amount: u64,
    minimum_token_a_amount: u64,
    minimum_token_b_amount: u64,
    pool_mint_supply: u64,
    swap_token_a_amount: u64,
    swap_token_b_amount: u64,
    fee_exempt: bool,
) -> (r: Result<WithdrawAllOutcome, SwapError>)
    requires
        fees.valid(),
    ensures
        r == spec_withdraw_all(
            pool_token_amount as int,
            minimum_token_a_amount as int,
            minimum_token_b_amount as int,
            pool_mint_supply as int,
            swap_token_a_amount as int,
            swap_token_b_amount as int,
            *fees,
            fee_exempt,
        ),
        // A successful withdrawal never hands out more than a reserve holds,
        // and moves zero of a side only when that reserve is already empty.
        r matches Ok(outcome) ==> outcome.token_a_amount <= swap_token_a_amount
            && outcome.token_b_amount <= swap_token_b_amount,
        r matches Ok(outcome) ==> (outcome.token_a_amount > 0 || swap_token_a_amount == 0) && (
        outcome.token_b_amount > 0 || swap_token_b_amount == 0),
{
    if !curve.calculator.allows_deposits() {
        return Err(SwapError::UnsupportedCurveOperation);
    }
    let withdraw_fee: u64 = if fee_exempt {
        0
    } else {
        fees.owner_withdraw_fee(pool_token_amount)
    };
    let burned = pool_token_amount - withdraw_fee;
    let results = match curve.calculator.pool_tokens_to_trading_tokens(
        burned,
        pool_mint_supply,
        swap_token_a_amount,
        swap_token_b_amount,
        RoundDirection::Floor,
    ) {
        Some(res) => res,
        None => {
            return Err(SwapError::ZeroTradingTokens);
        },
    };
    let token_a_amount = if results.token_a_amount < swap_token_a_amount {
        results.token_a_amount
    } else {
        swap_token_a_amount
    };
    if token_a_amount < minimum_token_a_amount {
        return Err(SwapError::ExceededSlippage);
    }
    if token_a_amount == 0 && swap_token_a_amount != 0 {
        return Err(SwapError::ZeroTradingTokens);
    }
    let token_b_amount = if results.token_b_amount < swap_token_b_amount {
        results.token_b_amount
    } else {
        swap_token_b_amount
    };
    if token_b_amount < minimum_token_b_amount {
        return Err(SwapError::ExceededSlippage);
    }
    if token_b_amount == 0 && swap_token_b_amount != 0 {
        return Err(SwapError::ZeroTradingTokens);
    }
    Ok(
        WithdrawAllOutcome {
            withdraw_fee: withdraw_fee,
            pool_tokens_burned: burned,
            token_a_amount: token_a_amount,
            token_b_amount: token_b_amount,
        },
    )
}

/// Mirror of `deposit_single`: shares for a one-sided contribution, net of
/// the imbalance fee; the first deposit into an empty pool mints the genesis
/// supply instead.
pub open spec fn spec_deposit_single(
    source_token_amount: int,
    minimum_pool_token_amount: int,
    pool_mint_supply: int,
    swap_token_a_amount: int,
    swap_token_b_amount: int,
    trade_direction: TradeDirection,
    fees: CurveFees,
) -> Result<u64, SwapError> {
    let reserve = spec_source_reserve(trade_direction, swap_token_a_amount, swap_token_b_amount);
    if pool_mint_supply > 0 && source_token_amount > 0 && reserve == 0 {
        Err(SwapError::ZeroTradingTokens)
    } else if pool_mint_supply > 0 && source_token_amount > 0 && pool_mint_supply
        * spec_deposit_net(source_token_amount, fees) / reserve > u64::MAX {
        Err(SwapError::ZeroTradingTokens)
    } else {
        let pool_tokens = if pool_mint_supply == 0 {
            INITIAL_SWAP_POOL_AMOUNT as int
        } else if source_token_amount == 0 {
            0
        } else {
            pool_mint_supply * spec_deposit_net(source_token_amount, fees) / reserve
        };
        if pool_tokens < minimum_pool_token_amount {
            Err(SwapError::ExceededSlippage)
        } else if pool_tokens == 0 {
            Err(SwapError::ZeroTradingTokens)
        } else {
            Ok(pool_tokens as u64)
        }
    }
}

/// Single-sided deposit: mints the shares a one-sided contribution is worth
/// after the imbalance fee, subject to the caller's minimum; a zero share
/// result is rejected. The first deposit mints the genesis supply.
pub fn deposit_single(
    curve: &SwapCurve,
    fees: &CurveFees,
    source_token_amount: u64,
    minimum_pool_token_amount: u64,
    pool_mint_supply: u64,
    swap_token_a_amount: u64,
    swap_token_b_amount: u64,
    trade_direction: TradeDirection,
) -> (r: Result<u64, SwapError>)
    requires
        fees.valid(),
    ensures
        r == spec_deposit_single(
            source_token_amount as int,
            minimum_pool_token_amount as int,
            pool_mint_supply as int,
            swap_token_a_amount as int,
            swap_token_b_amount as int,
            trade_direction,
            *fees,
        ),
        // A successful deposit always mints a nonzero share amount.
        r matches Ok(pool_tokens) ==> pool_tokens > 0,
{
    let pool_token_amount: u64 = if pool_mint_supply > 0 {
        match curve.deposit_single_token_type(
            source_token_amount,
            swap_token_a_amount,
            swap_token_b_amount,
            pool_mint_supply,
            trade_direction,
            fees,
        ) {
            Some(tokens) => tokens,
            None => {
                return Err(SwapError::ZeroTradingTokens);
            },
        }
    } else {
        curve.calculator.new_pool_supply()
    };
    if pool_token_amount < minimum_pool_token_amount {
        return Err(SwapError::ExceededSlippage);
    }
    if pool_token_amount == 0 {
        return Err(SwapError::ZeroTradingTokens);
    }
    Ok(pool_token_amount)
}

/// Mirror of `withdraw_single`: shares burned for an exact one-sided
/// delivery, plus the owner withdraw fee on top; the caller's maximum bounds
/// the total.
pub open spec fn spec_withdraw_single(
    destination_token_amount: int,
    maximum_pool_token_amount: int,
    pool_mint_supply: int,
    swap_token_a_amount: int,
    swap_token_b_amount: int,
    trade_direction: TradeDirection,
    fees: CurveFees,
    fee_exempt: bool,
) -> Result<WithdrawSingleOutcome, SwapError> {
    let reserve = spec_source_reserve(trade_direction, swap_token_a_amount, swap_token_b_amount);
    let grossed = spec_withdraw_gross(destination_token_amount, fees);
    if destination_token_amount > 0 && spec_gross_up_fails(fees) {
        Err(SwapError::ZeroTradingTokens)
    } else if destination_token_amount > 0 && grossed > reserve {
        Err(SwapError::ZeroTradingTokens)
    } else {
        let burned = if destination_token_amount == 0 {
            0
        } else {
            spec_ceil_div(pool_mint_supply * grossed, reserve)
        };
        let withdraw_fee = if fee_exempt {
            0
        } else {
            spec_fee(
                burned,
                fees.owner_withdraw_fee_numerator as int,
                fees.owner_withdraw_fee_denominator as int,
            )
        };
        if burned + withdraw_fee > u64::MAX {
            Err(SwapError::CalculationFailure)
        } else if burned + withdraw_fee > maximum_pool_token_amount {
            Err(SwapError::ExceededSlippage)
        } else if burned + withdraw_fee == 0 {
            Err(SwapError::ZeroTradingTokens)
        } else {
            Ok(
                WithdrawSingleOutcome {
                    pool_tokens_burned: burned as u64,
                    withdraw_fee: withdraw_fee as u64,
                },
            )
        }
    }
}

/// Single-sided withdrawal of an exact destination amount: burns the share
/// cost of the grossed-up delivery and assesses the owner withdraw fee on it
/// (waived for the pool's fee account), subject to the caller's maximum.
pub fn withdraw_single(
    curve: &SwapCurve,
    fees: &CurveFees,
    destination_token_amount: u64,
    maximum_pool_token_amount: u64,
    pool_mint_supply: u64,
    swap_token_a_amount: u64,
    swap_token_b_amount: u64,
    trade_direction: TradeDirection,
    fee_exempt: bool,
) -> (r: Result<WithdrawSingleOutcome, SwapError>)
    requires
        fees.valid(),
    ensures
        r == spec_withdraw_single(
            destination_token_amount as int,
            maximum_pool_token_amount as int,
            pool_mint_supply as int,
            swap_token_a_amount as int,
            swap_token_b_amount as int,
            trade_direction,
            *fees,
            fee_exempt,
        ),
        // A successful withdrawal always burns or collects a nonzero total.
        r matches Ok(outcome) ==> outcome.pool_tokens_burned + outcome.withdraw_fee > 0,
{
    let burned = match curve.withdraw_single_token_type_exact_out(
        destination_token_amount,
        swap_token_a_amount,
        swap_token_b_amount,
        pool_mint_supply,
        trade_direction,
        fees,
    ) {
        Some(tokens) => tokens,
        None => {
            return Err(SwapError::ZeroTradingTokens);
        },
    };
    let withdraw_fee: u64 = if fee_exempt {
        0
    } else {
        fees.owner_withdraw_fee(burned)
    };
    let total = match burned.checked_add(withdraw_fee) {
        Some(t) => t,
        None => {
            return Err(SwapError::CalculationFailure);
        },
    };
    if total > maximum_pool_token_amount {
        return Err(SwapError::ExceededSlippage);
    }
    if total == 0 {
        return Err(SwapError::ZeroTradingTokens);
    }
    Ok(
        WithdrawSingleOutcome {
            pool_tokens_burned: burned,
            withdraw_fee: withdraw_fee,
        },
    )
}

} // verus!
