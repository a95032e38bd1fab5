//! Insurance stake sizing and slashing.

use vstd::prelude::*;
use crate::types::InsuranceConfig;

verus! {

/// Basis points in a whole.
pub const BPS_DENOMINATOR: i128 = 10_000;

/// Stake required for a proposal of `amount`: none when insurance is off or
/// the amount is below the minimum, else `ceil(amount * bps / 10000)`.
pub open spec fn required_stake_spec(amount: int, config: InsuranceConfig) -> int {
    if !config.enabled || amount < config.min_amount {
        0
    } else {
        (amount * config.min_insurance_bps + 9999) / 10000
    }
}

/// Whether `required_stake` can be computed without overflow.
pub open spec fn stake_in_range(amount: int, config: InsuranceConfig) -> bool {
    amount * config.min_insurance_bps + 9999 <= i128::MAX
}

/// The portion of `stake` forfeited at `pct` percent, rounded down.
pub open spec fn slashed_spec(stake: int, pct: int) -> int {
    (stake * pct) / 100
}

/// Stake the proposer must escrow for a proposal of `amount`.
pub fn required_stake(amount: i128, config: &InsuranceConfig) -> (r: i128)
    requires
        amount >= 0,
        stake_in_range(amount as int, *config),
    ensures
        r == required_stake_spec(amount as int, *config),
        r >= 0,
{
    if !config.enabled || amount < config.min_amount {
        0
    } else {
        let bps: i128 = config.min_insurance_bps as i128;
        assert(0 <= amount * bps) by (nonlinear_arith)
            requires
                amount >= 0,
                bps >= 0,
        ;
        (amount * bps + 9999) / BPS_DENOMINATOR
    }
}

/// Splits `stake` into the forfeited part and the refunded remainder:
/// `slashed = floor(stake * pct / 100)`, `refunded = stake - slashed`, which
/// together make up the stake exactly.
pub fn slash(stake: i128, config: &InsuranceConfig) -> (r: (i128, i128))
    requires
        stake >= 0,
        config.slash_percentage <= 100,
    ensures
        r.0 == slashed_spec(stake as int, config.slash_percentage as int),
        r.1 == stake - r.0,
        r.0 + r.1 == stake,
        0 <= r.0 <= stake,
        0 <= r.1 <= stake,
{
    let pct: i128 = config.slash_percentage as i128;
    let q: i128 = stake / 100;
    let rem: i128 = stake % 100;
    proof {
        assert(stake == 100 * q + rem);
        assert(0 <= q * pct <= q * 100) by (nonlinear_arith)
            requires
                q >= 0,
                0 <= pct <= 100,
        ;
        assert(0 <= rem * pct <= rem * 100) by (nonlinear_arith)
            requires
                0 <= rem < 100,
                0 <= pct <= 100,
        ;
        assert((stake * pct) / 100 == q * pct + (rem * pct) / 100) by (nonlinear_arith)
            requires
                stake == 100 * q + rem,
                0 <= rem < 100,
                q >= 0,
                0 <= pct,
        ;
        assert((rem * pct) / 100 <= rem) by (nonlinear_arith)
            requires
                0 <= rem < 100,
                0 <= pct <= 100,
        ;
    }
    let slashed: i128 = q * pct + (rem * pct) / 100;
    (slashed, stake - slashed)
}

} // verus!
