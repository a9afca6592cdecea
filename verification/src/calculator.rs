use vstd::prelude::*;

verus! {

/// Which reserve is being sold into versus bought from: `AtoB` sells asset A
/// to the pool and receives asset B, `BtoA` the reverse. For single-sided
/// operations the direction names the asset being moved.
#[derive(Clone, Copy, Debug, PartialEq, Eq, Structural)]
pub enum TradeDirection {
    AtoB,
    BtoA,
}

/// Rounding used when a share-supply fraction is turned into reserve
/// amounts. Ceiling charges a depositor at least the fair amount; Floor
/// hands a withdrawer at most the fair amount. The asymmetry is the
/// anti-drain mechanism and must not be altered.
#[derive(Clone, Copy, Debug, PartialEq, Eq, Structural)]
pub enum RoundDirection {
    Floor,
    Ceiling,
}

/// Reserve amounts corresponding to a pool-share quantity.
#[derive(Clone, Copy, Debug, PartialEq, Eq, Structural)]
pub struct TradingTokenResult {
    pub token_a_amount: u64,
    pub token_b_amount: u64,
}

/// Raw curve output of a swap, before fee accounting.
#[derive(Clone, Copy, Debug, PartialEq, Eq, Structural)]
pub struct SwapWithoutFeesResult {
    pub source_amount_swapped: u64,
    pub destination_amount_swapped: u64,
}

} // verus!
