use fbnx_amm::base::{CurveType, SwapCurve};
use fbnx_amm::calculator::TradeDirection;
use fbnx_amm::constant_product::{ConstantProductCurve, INITIAL_SWAP_POOL_AMOUNT};
use fbnx_amm::error::SwapError;
use fbnx_amm::fees::CurveFees;
use fbnx_amm::instructions::{
    deposit_all, deposit_single, init_pool, swap, withdraw_all, withdraw_single,
    DepositAllOutcome, WithdrawAllOutcome, WithdrawSingleOutcome,
};
use fbnx_amm::state::{build_curve, build_fees, CurveInput, FeesInput};

fn curve() -> SwapCurve {
    SwapCurve {
        curve_type: CurveType::ConstantProduct,
        calculator: ConstantProductCurve {},
    }
}

fn zero_fees() -> CurveFees {
    CurveFees {
        trade_fee_numerator: 0,
        trade_fee_denominator: 0,
        owner_trade_fee_numerator: 0,
        owner_trade_fee_denominator: 0,
        owner_withdraw_fee_numerator: 0,
        owner_withdraw_fee_denominator: 0,
        host_fee_numerator: 0,
        host_fee_denominator: 0,
    }
}

#[test]
fn build_curve_accepts_only_the_implemented_variant() {
    let ok = build_curve(&CurveInput { curve_type: 0, curve_parameters: 0 });
    assert_eq!(ok, Ok(curve()));
    let bad = build_curve(&CurveInput { curve_type: 3, curve_parameters: 0 });
    assert_eq!(bad, Err(SwapError::InvalidCurve));
}

#[test]
fn build_fees_copies_every_field() {
    let input = FeesInput {
        trade_fee_numerator: 1,
        trade_fee_denominator: 2,
        owner_trade_fee_numerator: 3,
        owner_trade_fee_denominator: 4,
        owner_withdraw_fee_numerator: 5,
        owner_withdraw_fee_denominator: 6,
        host_fee_numerator: 7,
        host_fee_denominator: 8,
    };
    let fees = build_fees(&input).unwrap();
    assert_eq!(fees.trade_fee_numerator, 1);
    assert_eq!(fees.trade_fee_denominator, 2);
    assert_eq!(fees.owner_trade_fee_numerator, 3);
    assert_eq!(fees.owner_trade_fee_denominator, 4);
    assert_eq!(fees.owner_withdraw_fee_numerator, 5);
    assert_eq!(fees.owner_withdraw_fee_denominator, 6);
    assert_eq!(fees.host_fee_numerator, 7);
    assert_eq!(fees.host_fee_denominator, 8);
}

#[test]
fn init_pool_validates_in_order() {
    let curve_input = CurveInput { curve_type: 0, curve_parameters: 0 };
    let fees_input = FeesInput::default();
    // unknown curve variant
    assert_eq!(
        init_pool(&CurveInput { curve_type: 9, curve_parameters: 0 }, &fees_input, 1, 1),
        Err(SwapError::InvalidCurve)
    );
    // an empty side cannot bootstrap a pool
    assert_eq!(init_pool(&curve_input, &fees_input, 0, 1), Err(SwapError::EmptySupply));
    assert_eq!(init_pool(&curve_input, &fees_input, 1, 0), Err(SwapError::EmptySupply));
    // a fee fraction above one is rejected
    let mut bad_fees = fees_input;
    bad_fees.trade_fee_numerator = 2;
    bad_fees.trade_fee_denominator = 1;
    assert_eq!(init_pool(&curve_input, &bad_fees, 1, 1), Err(SwapError::InvalidFee));
}

#[test]
fn init_pool_mints_the_same_genesis_supply_for_any_reserves() {
    let curve_input = CurveInput { curve_type: 0, curve_parameters: 0 };
    let fees_input = FeesInput::default();
    let tiny = init_pool(&curve_input, &fees_input, 1, 1);
    let large = init_pool(&curve_input, &fees_input, 1_000_000, 2_000_000);
    assert_eq!(tiny, Ok(INITIAL_SWAP_POOL_AMOUNT));
    assert_eq!(large, Ok(INITIAL_SWAP_POOL_AMOUNT));
}

#[test]
fn swap_scenario_without_fees() {
    // reserves 1_000_000 / 1_000_000, no fees, input 1000: output 999
    let r = swap(
        &curve(),
        &zero_fees(),
        1000,
        0,
        1_000_000,
        1_000_000,
        INITIAL_SWAP_POOL_AMOUNT,
        TradeDirection::AtoB,
        false,
    )
    .unwrap();
    assert_eq!(r.source_amount_swapped, 1000);
    assert_eq!(r.destination_amount_swapped, 999);
    assert_eq!(r.new_swap_source_amount, 1_001_000);
    assert_eq!(r.new_swap_destination_amount, 999_001);
    assert_eq!(r.trade_fee, 0);
    assert_eq!(r.owner_fee, 0);
    assert_eq!(r.owner_pool_tokens, 0);
    assert_eq!(r.host_pool_tokens, 0);
}

#[test]
fn swap_scenario_with_quarter_percent_trade_fee() {
    // trade fee 25/10000: fee floor(1000 * 25 / 10000) = 2, net input 998,
    // output 1_000_000 - ceil(10^12 / 1_000_998) = 997
    let mut fees = zero_fees();
    fees.trade_fee_numerator = 25;
    fees.trade_fee_denominator = 10000;
    let r = swap(
        &curve(),
        &fees,
        1000,
        0,
        1_000_000,
        1_000_000,
        INITIAL_SWAP_POOL_AMOUNT,
        TradeDirection::AtoB,
        false,
    )
    .unwrap();
    assert_eq!(r.trade_fee, 2);
    assert_eq!(r.destination_amount_swapped, 997);
    assert_eq!(r.new_swap_source_amount, 1_001_000);
    assert_eq!(r.new_swap_destination_amount, 999_003);
}

#[test]
fn swap_never_decreases_the_invariant() {
    let mut fees = zero_fees();
    fees.trade_fee_numerator = 25;
    fees.trade_fee_denominator = 10000;
    fees.owner_trade_fee_numerator = 5;
    fees.owner_trade_fee_denominator = 10000;
    for amount_in in [1000u64, 54_321, 1_000_000] {
        let r = swap(
            &curve(),
            &fees,
            amount_in,
            0,
            1_000_000,
            1_000_000,
            INITIAL_SWAP_POOL_AMOUNT,
            TradeDirection::AtoB,
            false,
        )
        .unwrap();
        let k_before = 1_000_000u128 * 1_000_000u128;
        let k_after =
            r.new_swap_source_amount as u128 * r.new_swap_destination_amount as u128;
        assert!(k_after >= k_before);
    }
}

#[test]
fn swap_splits_the_owner_fee_with_a_host() {
    let mut fees = zero_fees();
    fees.trade_fee_numerator = 25;
    fees.trade_fee_denominator = 10000;
    fees.owner_trade_fee_numerator = 5;
    fees.owner_trade_fee_denominator = 10000;
    fees.host_fee_numerator = 20;
    fees.host_fee_denominator = 100;
    let r = swap(
        &curve(),
        &fees,
        100_000,
        0,
        1_000_000,
        1_000_000,
        INITIAL_SWAP_POOL_AMOUNT,
        TradeDirection::AtoB,
        true,
    )
    .unwrap();
    assert_eq!(r.trade_fee, 250);
    assert_eq!(r.owner_fee, 50);
    assert_eq!(r.destination_amount_swapped, 90_702);
    assert_eq!(r.new_swap_source_amount, 1_099_950);
    assert_eq!(r.new_swap_destination_amount, 909_298);
    // owner fee converted to shares: 46_366 in total, host takes 20%
    assert_eq!(r.host_pool_tokens, 9_273);
    assert_eq!(r.owner_pool_tokens, 37_093);
    // without a designated host, the owner keeps the whole share amount
    let no_host = swap(
        &curve(),
        &fees,
        100_000,
        0,
        1_000_000,
        1_000_000,
        INITIAL_SWAP_POOL_AMOUNT,
        TradeDirection::AtoB,
        false,
    )
    .unwrap();
    assert_eq!(no_host.host_pool_tokens, 0);
    assert_eq!(no_host.owner_pool_tokens, 46_366);
}

#[test]
fn swap_rejects_slippage() {
    let r = swap(
        &curve(),
        &zero_fees(),
        1000,
        1000,  // asks for at least 1000 out, only 999 available
        1_000_000,
        1_000_000,
        INITIAL_SWAP_POOL_AMOUNT,
        TradeDirection::AtoB,
        false,
    );
    assert_eq!(r, Err(SwapError::ExceededSlippage));
}

#[test]
fn swap_rejects_zero_output() {
    // zero input trades nothing
    let r = swap(
        &curve(),
        &zero_fees(),
        0,
        0,
        1_000_000,
        1_000_000,
        INITIAL_SWAP_POOL_AMOUNT,
        TradeDirection::AtoB,
        false,
    );
    assert_eq!(r, Err(SwapError::ZeroTradingTokens));
    // a dust input on a tiny pool rounds to zero output
    let dust = swap(
        &curve(),
        &zero_fees(),
        1,
        0,
        10,
        10,
        INITIAL_SWAP_POOL_AMOUNT,
        TradeDirection::BtoA,
        false,
    );
    assert_eq!(dust, Err(SwapError::ZeroTradingTokens));
}

#[test]
fn swap_reports_an_impossible_fee_conversion() {
    // a near-total trade fee makes the owner fee's gross-up exceed the pool
    let mut fees = zero_fees();
    fees.trade_fee_numerator = 9999;
    fees.trade_fee_denominator = 10000;
    fees.owner_trade_fee_numerator = 1;
    fees.owner_trade_fee_denominator = 10;
    let r = swap(
        &curve(),
        &fees,
        1_000_000,
        0,
        1_000_000,
        1_000_000,
        INITIAL_SWAP_POOL_AMOUNT,
        TradeDirection::AtoB,
        false,
    );
    assert_eq!(r, Err(SwapError::FeeCalculationFailure));
}

#[test]
fn deposit_all_first_deposit_mints_genesis() {
    // an empty pool charges the full reserves for the genesis supply
    let r = deposit_all(&curve(), 0, 1_000_000, 2_000_000, 0, 1_000_000, 2_000_000).unwrap();
    assert_eq!(
        r,
        DepositAllOutcome {
            pool_tokens_minted: INITIAL_SWAP_POOL_AMOUNT,
            token_a_amount: 1_000_000,
            token_b_amount: 2_000_000,
        }
    );
}

#[test]
fn deposit_all_rounds_the_charge_up() {
    // 1 share of a 3-share supply over reserves (10, 20): ceil charges (4, 7)
    let r = deposit_all(&curve(), 1, 10, 10, 3, 10, 20).unwrap();
    assert_eq!(
        r,
        DepositAllOutcome { pool_tokens_minted: 1, token_a_amount: 4, token_b_amount: 7 }
    );
}

#[test]
fn deposit_all_rejects_slippage_and_zero() {
    // required amount 4 exceeds the caller's maximum 3
    assert_eq!(
        deposit_all(&curve(), 1, 3, 10, 3, 10, 20),
        Err(SwapError::ExceededSlippage)
    );
    // zero shares cost zero of both sides: rejected
    assert_eq!(
        deposit_all(&curve(), 0, 10, 10, 3, 10, 20),
        Err(SwapError::ZeroTradingTokens)
    );
}

#[test]
fn withdraw_all_full_redemption_returns_the_reserves_exactly() {
    let supply = INITIAL_SWAP_POOL_AMOUNT;
    let r = withdraw_all(
        &curve(),
        &zero_fees(),
        supply,
        0,
        0,
        supply,
        123_456,
        789_012,
        true,
    )
    .unwrap();
    assert_eq!(
        r,
        WithdrawAllOutcome {
            withdraw_fee: 0,
            pool_tokens_burned: supply,
            token_a_amount: 123_456,
            token_b_amount: 789_012,
        }
    );
}

#[test]
fn withdraw_all_assesses_the_share_fee_unless_exempt() {
    let mut fees = zero_fees();
    fees.owner_withdraw_fee_numerator = 2;
    fees.owner_withdraw_fee_denominator = 100;
    // fee floor(100 * 2 / 100) = 2, burn 98: floor conversions (9, 19)
    let r = withdraw_all(&curve(), &fees, 100, 0, 0, 1000, 100, 200, false).unwrap();
    assert_eq!(
        r,
        WithdrawAllOutcome {
            withdraw_fee: 2,
            pool_tokens_burned: 98,
            token_a_amount: 9,
            token_b_amount: 19,
        }
    );
    // the fee account itself withdraws without a fee
    let exempt = withdraw_all(&curve(), &fees, 100, 0, 0, 1000, 100, 200, true).unwrap();
    assert_eq!(exempt.withdraw_fee, 0);
    assert_eq!(exempt.pool_tokens_burned, 100);
    assert_eq!(exempt.token_a_amount, 10);
    assert_eq!(exempt.token_b_amount, 20);
}

#[test]
fn withdraw_all_rejects_slippage_and_degenerate_zero() {
    // asks for at least 11 of asset A but only 10 is owed
    assert_eq!(
        withdraw_all(&curve(), &zero_fees(), 100, 11, 0, 1000, 100, 200, true),
        Err(SwapError::ExceededSlippage)
    );
    // a share amount too small to touch a nonempty reserve is rejected
    assert_eq!(
        withdraw_all(&curve(), &zero_fees(), 1, 0, 0, 1000, 100, 200, true),
        Err(SwapError::ZeroTradingTokens)
    );
}

#[test]
fn withdraw_all_never_hands_out_more_than_the_reserves() {
    // burning more shares than exist still caps at the reserves
    let r = withdraw_all(
        &curve(),
        &zero_fees(),
        u64::MAX,
        0,
        0,
        1000,
        100,
        200,
        true,
    )
    .unwrap();
    assert_eq!(r.token_a_amount, 100);
    assert_eq!(r.token_b_amount, 200);
}

#[test]
fn deposit_single_charges_the_imbalance_fee() {
    // trade fee 1/10 on half the amount: fee floor(50/10) = 5, net 95,
    // minted floor(1000 * 95 / 500) = 190
    let mut fees = zero_fees();
    fees.trade_fee_numerator = 1;
    fees.trade_fee_denominator = 10;
    let r = deposit_single(&curve(), &fees, 100, 0, 1000, 500, 999, TradeDirection::AtoB);
    assert_eq!(r, Ok(190));
}

#[test]
fn deposit_single_first_deposit_mints_genesis() {
    let r = deposit_single(&curve(), &zero_fees(), 123, 0, 0, 0, 0, TradeDirection::AtoB);
    assert_eq!(r, Ok(INITIAL_SWAP_POOL_AMOUNT));
}

#[test]
fn deposit_single_rejects_zero_and_slippage() {
    assert_eq!(
        deposit_single(&curve(), &zero_fees(), 0, 0, 1000, 500, 999, TradeDirection::AtoB),
        Err(SwapError::ZeroTradingTokens)
    );
    // a one-token deposit into a huge reserve mints no share
    assert_eq!(
        deposit_single(&curve(), &zero_fees(), 1, 0, 10, 500, 999, TradeDirection::AtoB),
        Err(SwapError::ZeroTradingTokens)
    );
    assert_eq!(
        deposit_single(&curve(), &zero_fees(), 100, 201, 1000, 500, 999, TradeDirection::AtoB),
        Err(SwapError::ExceededSlippage)
    );
}

#[test]
fn withdraw_single_burns_the_rounded_up_share_cost() {
    // no trading fee: ceil(100 * 50 / 200) = 25 shares for 50 of asset A
    let r = withdraw_single(
        &curve(),
        &zero_fees(),
        50,
        100,
        100,
        200,
        999,
        TradeDirection::AtoB,
        true,
    );
    assert_eq!(r, Ok(WithdrawSingleOutcome { pool_tokens_burned: 25, withdraw_fee: 0 }));
}

#[test]
fn withdraw_single_adds_the_share_fee_on_top() {
    let mut fees = zero_fees();
    fees.owner_withdraw_fee_numerator = 1;
    fees.owner_withdraw_fee_denominator = 10;
    let r = withdraw_single(
        &curve(),
        &fees,
        50,
        100,
        100,
        200,
        999,
        TradeDirection::AtoB,
        false,
    );
    // 25 shares burned, fee floor(25/10) = 2 on top
    assert_eq!(r, Ok(WithdrawSingleOutcome { pool_tokens_burned: 25, withdraw_fee: 2 }));
    // total 27 exceeds a maximum of 26
    let capped = withdraw_single(
        &curve(),
        &fees,
        50,
        26,
        100,
        200,
        999,
        TradeDirection::AtoB,
        false,
    );
    assert_eq!(capped, Err(SwapError::ExceededSlippage));
}

#[test]
fn withdraw_single_rejects_zero_and_overdraw() {
    assert_eq!(
        withdraw_single(
            &curve(),
            &zero_fees(),
            0,
            100,
            100,
            200,
            999,
            TradeDirection::AtoB,
            true,
        ),
        Err(SwapError::ZeroTradingTokens)
    );
    // more than the reserve holds
    assert_eq!(
        withdraw_single(
            &curve(),
            &zero_fees(),
            201,
            u64::MAX,
            100,
            200,
            999,
            TradeDirection::AtoB,
            true,
        ),
        Err(SwapError::ZeroTradingTokens)
    );
}

#[test]
fn withdraw_single_reports_share_overflow() {
    // burning u64::MAX shares plus a fee on top leaves the 64-bit range
    let mut fees = zero_fees();
    fees.owner_withdraw_fee_numerator = 1;
    fees.owner_withdraw_fee_denominator = 2;
    let r = withdraw_single(
        &curve(),
        &fees,
        200,
        u64::MAX,
        u64::MAX,
        200,
        999,
        TradeDirection::AtoB,
        false,
    );
    assert_eq!(r, Err(SwapError::CalculationFailure));
}

#[test]
fn deposit_then_withdraw_never_pays_out_more() {
    // pay for 7 shares at Ceiling, redeem the same 7 at Floor from the grown
    // pool: what comes back never exceeds what was paid.
    let (supply, reserve_a, reserve_b) = (1000u64, 333u64, 777u64);
    let paid = deposit_all(&curve(), 7, u64::MAX, u64::MAX, supply, reserve_a, reserve_b)
        .unwrap();
    let back = withdraw_all(
        &curve(),
        &zero_fees(),
        7,
        0,
        0,
        supply + 7,
        reserve_a + paid.token_a_amount,
        reserve_b + paid.token_b_amount,
        true,
    )
    .unwrap();
    assert!(back.token_a_amount <= paid.token_a_amount);
    assert!(back.token_b_amount <= paid.token_b_amount);
}

#[test]
fn recovering_a_deposit_costs_at_least_the_shares_minted() {
    // pay for 7 shares, then ask for the charged asset-A amount back as an
    // exact single-sided withdrawal: at least 7 shares must be burned.
    let (supply, reserve_a, reserve_b) = (1000u64, 333u64, 777u64);
    let paid = deposit_all(&curve(), 7, u64::MAX, u64::MAX, supply, reserve_a, reserve_b)
        .unwrap();
    assert_eq!(paid.token_a_amount, 3);
    let owed = withdraw_single(
        &curve(),
        &zero_fees(),
        paid.token_a_amount,
        u64::MAX,
        supply + 7,
        reserve_a + paid.token_a_amount,
        reserve_b + paid.token_b_amount,
        TradeDirection::AtoB,
        true,
    )
    .unwrap();
    assert_eq!(owed.pool_tokens_burned, 9);
    assert!(owed.pool_tokens_burned >= 7);
}
