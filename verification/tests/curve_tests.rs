use fbnx_amm::calculator::{RoundDirection, TradeDirection, TradingTokenResult};
use fbnx_amm::constant_product::{ConstantProductCurve, INITIAL_SWAP_POOL_AMOUNT};
use fbnx_amm::error::SwapError;

const CURVE: ConstantProductCurve = ConstantProductCurve {};

#[test]
fn validate_has_nothing_to_check() {
    assert_eq!(CURVE.validate(), Ok(()));
}

#[test]
fn validate_supply_rejects_an_empty_side() {
    assert_eq!(CURVE.validate_supply(0, 5), Err(SwapError::EmptySupply));
    assert_eq!(CURVE.validate_supply(5, 0), Err(SwapError::EmptySupply));
    assert_eq!(CURVE.validate_supply(0, 0), Err(SwapError::EmptySupply));
    assert_eq!(CURVE.validate_supply(1, 1), Ok(()));
}

#[test]
fn new_pool_supply_is_the_genesis_constant() {
    assert_eq!(CURVE.new_pool_supply(), INITIAL_SWAP_POOL_AMOUNT);
    assert_eq!(CURVE.new_pool_supply(), 1_000_000_000);
}

#[test]
fn constant_product_allows_deposits() {
    assert!(CURVE.allows_deposits());
}

#[test]
fn swap_without_fees_rounds_against_the_trader() {
    // 1_000_000 - ceil(10^12 / 1_001_000) = 999
    let r = CURVE.swap_without_fees(1000, 1_000_000, 1_000_000).unwrap();
    assert_eq!(r.source_amount_swapped, 1000);
    assert_eq!(r.destination_amount_swapped, 999);
}

#[test]
fn swap_without_fees_rejects_zero_output() {
    // ceil(100 / 10) == 10: nothing can be paid out
    assert_eq!(CURVE.swap_without_fees(0, 10, 10), None);
    // a one-token nudge on a tiny pool still rounds to zero output
    assert_eq!(CURVE.swap_without_fees(1, 10, 10), None);
}

#[test]
fn swap_without_fees_never_decreases_the_invariant() {
    for source in [1u64, 10, 999, 1000, 123_456] {
        let (rin, rout) = (1_000_000u64, 2_000_000u64);
        if let Some(r) = CURVE.swap_without_fees(source, rin, rout) {
            let new_in = rin as u128 + source as u128;
            let new_out = (rout - r.destination_amount_swapped) as u128;
            assert!(new_in * new_out >= rin as u128 * rout as u128);
        }
    }
}

#[test]
fn pool_tokens_to_trading_tokens_floor_and_ceiling() {
    let floor = CURVE
        .pool_tokens_to_trading_tokens(1, 3, 10, 20, RoundDirection::Floor)
        .unwrap();
    assert_eq!(
        floor,
        TradingTokenResult { token_a_amount: 3, token_b_amount: 6 }
    );
    let ceiling = CURVE
        .pool_tokens_to_trading_tokens(1, 3, 10, 20, RoundDirection::Ceiling)
        .unwrap();
    assert_eq!(
        ceiling,
        TradingTokenResult { token_a_amount: 4, token_b_amount: 7 }
    );
}

#[test]
fn pool_tokens_to_trading_tokens_fails_on_zero_supply() {
    assert_eq!(
        CURVE.pool_tokens_to_trading_tokens(1, 0, 10, 20, RoundDirection::Floor),
        None
    );
}

#[test]
fn pool_tokens_to_trading_tokens_fails_outside_64_bits() {
    // u64::MAX shares of a one-share supply claim u64::MAX * reserve
    assert_eq!(
        CURVE.pool_tokens_to_trading_tokens(u64::MAX, 1, 2, 2, RoundDirection::Floor),
        None
    );
}

#[test]
fn deposit_single_token_type_is_proportional() {
    // 1000 * 50 / 200 = 250
    assert_eq!(
        CURVE.deposit_single_token_type(50, 200, 999, 1000, TradeDirection::AtoB),
        Some(250)
    );
    // direction B picks the B reserve: 1000 * 50 / 500 = 100
    assert_eq!(
        CURVE.deposit_single_token_type(50, 999, 500, 1000, TradeDirection::BtoA),
        Some(100)
    );
    assert_eq!(
        CURVE.deposit_single_token_type(50, 0, 999, 1000, TradeDirection::AtoB),
        None
    );
}

#[test]
fn withdraw_single_token_type_rounds_the_burn_up() {
    // ceil(100 * 50 / 200) = 25
    assert_eq!(
        CURVE.withdraw_single_token_type_exact_out(50, 200, 999, 100, TradeDirection::AtoB),
        Some(25)
    );
    // ceil(100 * 1 / 3) = 34 shares for one token of a three-token reserve
    assert_eq!(
        CURVE.withdraw_single_token_type_exact_out(1, 3, 999, 100, TradeDirection::AtoB),
        Some(34)
    );
    // zero extraction costs zero shares
    assert_eq!(
        CURVE.withdraw_single_token_type_exact_out(0, 200, 999, 100, TradeDirection::AtoB),
        Some(0)
    );
    // more than the reserve holds cannot be extracted
    assert_eq!(
        CURVE.withdraw_single_token_type_exact_out(201, 200, 999, 100, TradeDirection::AtoB),
        None
    );
}
