use fbnx_amm::error::SwapError;
use fbnx_amm::fees::CurveFees;

fn zero_fees() -> CurveFees {
    CurveFees {
        trade_fee_numerator: 0,
        trade_fee_denominator: 0,
        owner_trade_fee_numerator: 0,
        owner_trade_fee_denominator: 0,
        owner_withdraw_fee_numerator: 0,
        owner_withdraw_fee_denominator: 0,
        host_fee_numerator: 0,
        host_fee_denominator: 0,
    }
}

#[test]
fn validate_accepts_zero_schedule() {
    assert_eq!(zero_fees().validate(), Ok(()));
}

#[test]
fn validate_accepts_fractions_up_to_one() {
    let mut fees = zero_fees();
    fees.trade_fee_numerator = 10000;
    fees.trade_fee_denominator = 10000;
    assert_eq!(fees.validate(), Ok(()));
}

#[test]
fn validate_rejects_numerator_above_denominator() {
    let mut fees = zero_fees();
    fees.owner_trade_fee_numerator = 11;
    fees.owner_trade_fee_denominator = 10;
    assert_eq!(fees.validate(), Err(SwapError::InvalidFee));
    let mut fees = zero_fees();
    fees.host_fee_numerator = 1;
    fees.host_fee_denominator = 0;
    assert_eq!(fees.validate(), Err(SwapError::InvalidFee));
}

#[test]
fn trading_fee_floors() {
    let mut fees = zero_fees();
    fees.trade_fee_numerator = 25;
    fees.trade_fee_denominator = 10000;
    // floor(1000 * 25 / 10000) = floor(2.5) = 2
    assert_eq!(fees.trading_fee(1000), 2);
    assert_eq!(fees.trading_fee(0), 0);
    assert_eq!(fees.trading_fee(399), 0);
    assert_eq!(fees.trading_fee(400), 1);
}

#[test]
fn trading_fee_disabled_when_denominator_zero() {
    assert_eq!(zero_fees().trading_fee(u64::MAX), 0);
}

#[test]
fn trading_fee_is_monotonic_in_amount() {
    let mut fees = zero_fees();
    fees.trade_fee_numerator = 1;
    fees.trade_fee_denominator = 3;
    let mut last = 0;
    for amount in 0..1000u64 {
        let f = fees.trading_fee(amount);
        assert!(f >= last);
        last = f;
    }
}

#[test]
fn owner_fees_use_their_own_pairs() {
    let mut fees = zero_fees();
    fees.owner_trade_fee_numerator = 5;
    fees.owner_trade_fee_denominator = 10000;
    fees.owner_withdraw_fee_numerator = 2;
    fees.owner_withdraw_fee_denominator = 100;
    fees.host_fee_numerator = 20;
    fees.host_fee_denominator = 100;
    assert_eq!(fees.owner_trading_fee(100000), 50);
    assert_eq!(fees.owner_withdraw_fee(100), 2);
    assert_eq!(fees.host_fee(46366), 9273);
}

#[test]
fn pre_trading_fee_grosses_up() {
    let mut fees = zero_fees();
    fees.trade_fee_numerator = 25;
    fees.trade_fee_denominator = 10000;
    // ceil(500 * 10000 / 9975) = 502
    assert_eq!(fees.pre_trading_fee_amount(500), Some(502));
    // disabled fee: identity
    assert_eq!(zero_fees().pre_trading_fee_amount(500), Some(500));
}

#[test]
fn pre_trading_fee_has_no_value_at_full_fee() {
    let mut fees = zero_fees();
    fees.trade_fee_numerator = 7;
    fees.trade_fee_denominator = 7;
    assert_eq!(fees.pre_trading_fee_amount(500), None);
}
