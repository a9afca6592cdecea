use vstd::prelude::*;

verus! {

use vstd::arithmetic::div_mod::lemma_div_of0;
use crate::error::SwapError;
use crate::math::{
    ceil_div_u128, lemma_fraction_floor_bounds, lemma_fraction_floor_monotonic,
    lemma_u64_mul_in_range, mul_u64, spec_ceil_div,
};

/// Floor-rounded fractional fee on an amount: `floor(amount * numerator /
/// denominator)`, or zero when the pair is disabled (zero denominator).
pub open spec fn spec_fee(amount: int, numerator: int, denominator: int) -> int {
    if denominator == 0 {
        0
    } else {
        amount * numerator / denominator
    }
}

/// Gross amount that, once the trading fee is deducted from it, still covers
/// `post_fee`: `ceil(post_fee * denominator / (denominator - numerator))`,
/// or `post_fee` itself when the fee is disabled. Meaningful only for
/// fractions strictly below one.
pub open spec fn spec_pre_fee(post_fee: int, numerator: int, denominator: int) -> int {
    if numerator == 0 || denominator == 0 {
        post_fee
    } else {
        spec_ceil_div(post_fee * denominator, denominator - numerator)
    }
}

/// The fee schedule of a pool: four numerator/denominator pairs, each a
/// fraction of at most one. A zero denominator disables its fee.
#[derive(Clone, Copy, Debug, PartialEq, Eq, Structural)]
pub struct CurveFees {
    /// Fee charged to a trader on the input amount of a swap.
    pub trade_fee_numerator: u64,
    pub trade_fee_denominator: u64,
    /// The pool owner's cut, assessed on the same swap input independently
    /// of (not subtracted from) the trade fee.
    pub owner_trade_fee_numerator: u64,
    pub owner_trade_fee_denominator: u64,
    /// Fee in pool-share units on withdrawals not made by the fee account.
    pub owner_withdraw_fee_numerator: u64,
    pub owner_withdraw_fee_denominator: u64,
    /// A referrer's share, split out of the owner fee.
    pub host_fee_numerator: u64,
    pub host_fee_denominator: u64,
}

impl CurveFees {
    /// A schedule is well formed when no numerator exceeds its denominator,
    /// so no effective fraction exceeds one.
    pub open spec fn valid(&self) -> bool {
        &&& self.trade_fee_numerator <= self.trade_fee_denominator
        &&& self.owner_trade_fee_numerator <= self.owner_trade_fee_denominator
        &&& self.owner_withdraw_fee_numerator <= self.owner_withdraw_fee_denominator
        &&& self.host_fee_numerator <= self.host_fee_denominator
    }

    /// Rejects a schedule in which any numerator exceeds its denominator.
    pub fn validate(&self) -> (r: Result<(), SwapError>)
        ensures
            r == (if self.valid() {
                Ok::<(), SwapError>(())
            } else {
                Err::<(), SwapError>(SwapError::InvalidFee)
            }),
    {
        if self.trade_fee_numerator > self.trade_fee_denominator {
            return Err(SwapError::InvalidFee);
        }
        if self.owner_trade_fee_numerator > self.owner_trade_fee_denominator {
            return Err(SwapError::InvalidFee);
        }
        if self.owner_withdraw_fee_numerator > self.owner_withdraw_fee_denominator {
            return Err(SwapError::InvalidFee);
        }
        if self.host_fee_numerator > self.host_fee_denominator {
            return Err(SwapError::InvalidFee);
        }
        Ok(())
    }

    /// Fee charged to a trader on the input amount of a swap.
    pub fn trading_fee(&self, trading_tokens: u64) -> (r: u64)
        requires
            self.valid(),
        ensures
            r == spec_fee(
                trading_tokens as int,
                self.trade_fee_numerator as int,
                self.trade_fee_denominator as int,
            ),
            r <= trading_tokens,
    {
        calculate_fee(trading_tokens, self.trade_fee_numerator, self.trade_fee_denominator)
    }

    /// The pool owner's cut of a swap's input amount.
    pub fn owner_trading_fee(&self, trading_tokens: u64) -> (r: u64)
        requires
            self.valid(),
        ensures
            r == spec_fee(
                trading_tokens as int,
                self.owner_trade_fee_numerator as int,
                self.owner_trade_fee_denominator as int,
            ),
            r <= trading_tokens,
    {
        calculate_fee(
            trading_tokens,
            self.owner_trade_fee_numerator,
            self.owner_trade_fee_denominator,
        )
    }

    /// Fee in pool-share units assessed on a withdrawal.
    pub fn owner_withdraw_fee(&self, pool_tokens: u64) -> (r: u64)
        requires
            self.valid(),
        ensures
            r == spec_fee(
                pool_tokens as int,
                self.owner_withdraw_fee_numerator as int,
                self.owner_withdraw_fee_denominator as int,
            ),
            r <= pool_tokens,
    {
        calculate_fee(
            pool_tokens,
            self.owner_withdraw_fee_numerator,
            self.owner_withdraw_fee_denominator,
        )
    }

    /// The referrer's share, taken out of an owner fee amount.
    pub fn host_fee(&self, owner_fee: u64) -> (r: u64)
        requires
            self.valid(),
        ensures
            r == spec_fee(
                owner_fee as int,
                self.host_fee_numerator as int,
                self.host_fee_denominator as int,
            ),
            r <= owner_fee,
    {
        calculate_fee(owner_fee, self.host_fee_numerator, self.host_fee_denominator)
    }

    /// Gross trading amount needed so that, after the trading fee, `post_fee_amount`
    /// remains. Fails only for a one-hundred-percent trading fee, whose
    /// gross-up has no finite value.
    pub fn pre_trading_fee_amount(&self, post_fee_amount: u64) -> (r: Option<u128>)
        requires
            self.valid(),
        ensures
            (self.trade_fee_numerator == self.trade_fee_denominator
                && self.trade_fee_numerator > 0) ==> r is None,
            !(self.trade_fee_numerator == self.trade_fee_denominator
                && self.trade_fee_numerator > 0) ==> r == Some(
                spec_pre_fee(
                    post_fee_amount as int,
                    self.trade_fee_numerator as int,
                    self.trade_fee_denominator as int,
                ) as u128,
            ),
    {
        if self.trade_fee_numerator == 0 || self.trade_fee_denominator == 0 {
            Some(post_fee_amount as u128)
        } else {
            let fee_gap = self.trade_fee_denominator - self.trade_fee_numerator;
            if fee_gap == 0 {
                None
            } else {
                let scaled = mul_u64(post_fee_amount, self.trade_fee_denominator);
                proof {
                    lemma_u64_mul_in_range(
                        post_fee_amount as int,
                        self.trade_fee_denominator as int,
                    );
                }
                Some(ceil_div_u128(scaled, fee_gap as u128))
            }
        }
    }
}

/// Floor-rounded fee shared by every pair of the schedule.
fn calculate_fee(amount: u64, numerator: u64, denominator: u64) -> (r: u64)
    requires
        numerator <= denominator,
    ensures
        r == spec_fee(amount as int, numerator as int, denominator as int),
        r <= amount,
{
    if denominator == 0 {
        0
    } else {
        let scaled = mul_u64(amount, numerator);
        let fee = scaled / (denominator as u128);
        proof {
            lemma_fraction_floor_bounds(amount as int, numerator as int, denominator as int);
        }
        fee as u64
    }
}

/// Fee monotonicity: with a fraction of at most one, the floor-rounded fee
/// never decreases as the amount grows, and a zero amount is charged zero.
pub proof fn lemma_fee_monotonic(amount1: int, amount2: int, numerator: int, denominator: int)
    requires
        0 <= amount1 <= amount2,
        0 <= numerator <= denominator,
    ensures
        spec_fee(amount1, numerator, denominator) <= spec_fee(amount2, numerator, denominator),
        spec_fee(0, numerator, denominator) == 0,
{
    if denominator > 0 {
        lemma_fraction_floor_monotonic(amount1, amount2, numerator, denominator);
        assert(0 * numerator == 0) by (nonlinear_arith);
        lemma_div_of0(denominator);
    }
}

} // verus!
