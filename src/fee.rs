use vstd::prelude::*;

verus! {

/// Fee used when the service reports a zero baseline (one gwei, in wei).
pub const FEE_FLOOR: u128 = 1_000_000_000;

/// Priority fee offered on fee-market transactions (one gwei, in wei).
pub const PRIORITY_FEE: u128 = 1_000_000_000;

/// Multiplier applied to the baseline by the benchmark.
pub const BENCHMARK_MULTIPLIER: u128 = 3;

/// Multiplier applied to the baseline by the game.
pub const GAME_MULTIPLIER: u128 = 2;

/// The fee offered for a given baseline.
pub open spec fn fee_for(baseline: u128, multiplier: u128) -> int {
    if baseline == 0 {
        FEE_FLOOR as int
    } else {
        baseline * multiplier
    }
}

/// The max fee of a fee-market transaction whose fee policy gave `fee`.
pub open spec fn max_fee_for(fee: u128) -> int {
    if fee >= 2 * PRIORITY_FEE {
        fee as int
    } else {
        2 * PRIORITY_FEE
    }
}

/// Computes a submission fee from the service's baseline.
pub struct FeePolicy {
    pub multiplier: u128,
}

/// The two fee fields of a fee-market transaction.
#[derive(Clone, Copy, Debug, PartialEq, Eq, Structural)]
pub struct MarketFees {
    pub max_fee: u128,
    pub priority_fee: u128,
}

impl FeePolicy {
    pub fn new(multiplier: u128) -> (r: Self)
        ensures
            r.multiplier == multiplier,
    {
        FeePolicy { multiplier }
    }

    /// The floor when `baseline` is zero, else `baseline * multiplier`.
    pub fn compute(&self, baseline: u128) -> (r: u128)
        requires
            baseline * self.multiplier <= u128::MAX,
        ensures
            r == fee_for(baseline, self.multiplier),
    {
        if baseline == 0 {
            FEE_FLOOR
        } else {
            baseline * self.multiplier
        }
    }

    /// Whether `compute` falls back to the floor, which callers report as a
    /// warning.
    pub fn uses_floor(&self, baseline: u128) -> (r: bool)
        ensures
            r == (baseline == 0),
    {
        baseline == 0
    }

    /// Fee-market fields: the fixed priority fee, and a max fee of at least
    /// twice that.
    pub fn market_fees(&self, baseline: u128) -> (r: MarketFees)
        requires
            baseline * self.multiplier <= u128::MAX,
        ensures
            r.priority_fee == PRIORITY_FEE,
            r.max_fee == max_fee_for(fee_for(baseline, self.multiplier) as u128),
            r.max_fee >= r.priority_fee,
    {
        let fee = self.compute(baseline);
        market_fees_for(fee)
    }
}

/// Fee-market fields for a fee already computed by the policy.
pub fn market_fees_for(fee: u128) -> (r: MarketFees)
    ensures
        r.priority_fee == PRIORITY_FEE,
        r.max_fee == max_fee_for(fee),
        r.max_fee >= r.priority_fee,
{
    let max_fee = if fee >= 2 * PRIORITY_FEE {
        fee
    } else {
        2 * PRIORITY_FEE
    };
    MarketFees { max_fee, priority_fee: PRIORITY_FEE }
}

/// The fee is the floor exactly when the baseline is zero, and otherwise the
/// baseline times the multiplier; a fee-market max fee never falls below the
/// priority fee.
pub proof fn lemma_fee_policy(baseline: u128, multiplier: u128)
    requires
        multiplier >= 1,
        baseline * multiplier <= u128::MAX,
    ensures
        baseline == 0 ==> fee_for(baseline, multiplier) == FEE_FLOOR,
        baseline > 0 ==> fee_for(baseline, multiplier) == baseline * multiplier,
        max_fee_for(fee_for(baseline, multiplier) as u128) >= PRIORITY_FEE,
{
}

} // verus!
