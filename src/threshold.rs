//! Required-approval evaluation for the configured threshold strategy.

use vstd::prelude::*;
use crate::types::{AmountTier, ThresholdStrategy};

verus! {

/// `v` clamped into [1, n].
pub open spec fn clamp_spec(v: int, n: int) -> int {
    if v < 1 {
        1
    } else if v > n {
        n
    } else {
        v
    }
}

/// The tier with the greatest `amount` not above `amount`, scanning `tiers` in
/// order; among tiers of equal amount the first one wins.
pub open spec fn best_tier(tiers: Seq<AmountTier>, amount: int) -> Option<AmountTier>
    decreases tiers.len(),
{
    if tiers.len() == 0 {
        None
    } else {
        let rest = best_tier(tiers.drop_last(), amount);
        let t = tiers.last();
        if t.amount <= amount && (rest is None || t.amount > rest->0.amount) {
            Some(t)
        } else {
            rest
        }
    }
}

/// Ceiling of `signers * pct / 100`.
pub open spec fn percentage_spec(signers: int, pct: int) -> int {
    (signers * pct + 99) / 100
}

/// The raw (unclamped) requirement of a strategy.
pub open spec fn raw_required(
    strategy: ThresholdStrategy,
    fixed: int,
    signers: int,
    amount: int,
    elapsed: int,
) -> int {
    match strategy {
        ThresholdStrategy::Fixed => fixed,
        ThresholdStrategy::Percentage(p) => percentage_spec(signers, p as int),
        ThresholdStrategy::AmountBased(tiers) => match best_tier(tiers@, amount) {
            Some(t) => t.approvals as int,
            None => fixed,
        },
        ThresholdStrategy::TimeBased(tb) => if elapsed >= tb.reduction_delay {
            tb.reduced_threshold as int
        } else {
            tb.initial_threshold as int
        },
    }
}

/// Approvals required for a proposal of `amount` that was created `elapsed`
/// ledgers ago, with `signers` current signers.
pub open spec fn required_spec(
    strategy: ThresholdStrategy,
    fixed: int,
    signers: int,
    amount: int,
    elapsed: int,
) -> int {
    clamp_spec(raw_required(strategy, fixed, signers, amount, elapsed), signers)
}

fn clamp_approvals(v: u64, n: u32) -> (r: u32)
    requires
        n >= 1,
    ensures
        r == clamp_spec(v as int, n as int),
{
    if v < 1 {
        1
    } else if v > n as u64 {
        n
    } else {
        v as u32
    }
}

/// Scan of amount tiers: the tier with the greatest amount not above `amount`.
pub fn select_tier(tiers: &Vec<AmountTier>, amount: i128) -> (r: Option<AmountTier>)
    ensures
        r == best_tier(tiers@, amount as int),
{
    let mut best: Option<AmountTier> = None;
    let mut i: usize = 0;
    while i < tiers.len()
        invariant
            i <= tiers@.len(),
            best == best_tier(tiers@.take(i as int), amount as int),
        decreases tiers@.len() - i,
    {
        let t = tiers[i];
        assert(tiers@.take(i as int + 1).drop_last() == tiers@.take(i as int));
        if t.amount <= amount {
            match best {
                None => {
                    best = Some(t);
                },
                Some(b) => {
                    if t.amount > b.amount {
                        best = Some(t);
                    }
                },
            }
        }
        i = i + 1;
    }
    assert(tiers@.take(tiers@.len() as int) == tiers@);
    best
}

/// Required approvals under `strategy`, always within [1, signer_count].
pub fn required_approvals(
    strategy: &ThresholdStrategy,
    fixed_threshold: u32,
    signer_count: u32,
    amount: i128,
    elapsed: u64,
) -> (r: u32)
    requires
        signer_count >= 1,
    ensures
        r == required_spec(
            *strategy,
            fixed_threshold as int,
            signer_count as int,
            amount as int,
            elapsed as int,
        ),
        1 <= r <= signer_count,
{
    let raw: u64 = match strategy {
        ThresholdStrategy::Fixed => fixed_threshold as u64,
        ThresholdStrategy::Percentage(p) => {
            let pv: u32 = *p;
            assert((signer_count as int) * (pv as int) <= 0xFFFF_FFFE_0000_0001) by (nonlinear_arith)
                requires
                    signer_count <= 0xFFFF_FFFF,
                    pv <= 0xFFFF_FFFF,
            ;
            let prod: u64 = signer_count as u64 * pv as u64;
            (prod + 99) / 100
        },
        ThresholdStrategy::AmountBased(tiers) => match select_tier(tiers, amount) {
            Some(t) => t.approvals as u64,
            None => fixed_threshold as u64,
        },
        ThresholdStrategy::TimeBased(tb) => {
            if elapsed >= tb.reduction_delay {
                tb.reduced_threshold as u64
            } else {
                tb.initial_threshold as u64
            }
        },
    };
    clamp_approvals(raw, signer_count)
}

} // verus!

verus! {

/// What the tier scan selects: a qualifying tier of `tiers` whose amount no
/// other qualifying tier exceeds; nothing only when no tier qualifies.
pub proof fn lemma_best_tier_is_greatest(tiers: Seq<AmountTier>, amount: int)
    ensures
        best_tier(tiers, amount) matches Some(t) ==> tiers.contains(t) && t.amount <= amount && (
        forall|i: int|
            0 <= i < tiers.len() && #[trigger] tiers[i].amount <= amount ==> tiers[i].amount
                <= t.amount),
        best_tier(tiers, amount) is None ==> forall|i: int|
            0 <= i < tiers.len() ==> #[trigger] tiers[i].amount > amount,
    decreases tiers.len(),
{
    if tiers.len() > 0 {
        let dl = tiers.drop_last();
        lemma_best_tier_is_greatest(dl, amount);
        assert forall|i: int| 0 <= i < tiers.len() - 1 implies #[trigger] tiers[i] == dl[i] by {}
        if let Some(t) = best_tier(dl, amount) {
            let k = choose|k: int| 0 <= k < dl.len() && dl[k] == t;
            assert(tiers[k] == t);
        }
        if best_tier(tiers, amount) == Some(tiers.last()) {
            assert(tiers[tiers.len() - 1] == tiers.last());
        }
    }
}

proof fn lemma_remove_below_best(tiers: Seq<AmountTier>, amount: int, k: int)
    requires
        0 <= k < tiers.len(),
        best_tier(tiers, amount) is Some,
        tiers[k].amount < best_tier(tiers, amount)->0.amount,
    ensures
        best_tier(tiers.remove(k), amount) == best_tier(tiers, amount),
    decreases tiers.len(),
{
    let dl = tiers.drop_last();
    let rk = tiers.remove(k);
    if k == tiers.len() - 1 {
        assert(rk == dl);
    } else {
        assert(rk.drop_last() == dl.remove(k));
        assert(rk.last() == tiers.last());
        lemma_best_tier_is_greatest(dl, amount);
        lemma_best_tier_is_greatest(dl.remove(k), amount);
        if best_tier(tiers, amount) == best_tier(dl, amount) {
            assert(dl[k] == tiers[k]);
            lemma_remove_below_best(dl, amount, k);
        } else {
            // The last tier wins; whatever the shorter scan selects lies below it.
            if let Some(t2) = best_tier(dl.remove(k), amount) {
                let j = choose|j: int| 0 <= j < dl.remove(k).len() && dl.remove(k)[j] == t2;
                let jj = if j < k {
                    j
                } else {
                    j + 1
                };
                assert(dl[jj] == t2);
                assert(best_tier(dl, amount) is Some);
            }
        }
    }
}

/// Removing an amount tier that lies below the tier selected for `amount`
/// leaves the approvals required under the amount-based strategy as they
/// were, and the requirement stays within [1, signers].
pub proof fn lemma_amount_tiers_removal(
    tiers: Vec<AmountTier>,
    fewer: Vec<AmountTier>,
    k: int,
    fixed: int,
    signers: int,
    amount: int,
    elapsed: int,
)
    requires
        signers >= 1,
        0 <= k < tiers@.len(),
        fewer@ == tiers@.remove(k),
        best_tier(tiers@, amount) is Some,
        tiers@[k].amount < best_tier(tiers@, amount)->0.amount,
    ensures
        required_spec(ThresholdStrategy::AmountBased(fewer), fixed, signers, amount, elapsed)
            == required_spec(ThresholdStrategy::AmountBased(tiers), fixed, signers, amount, elapsed),
        1 <= required_spec(ThresholdStrategy::AmountBased(fewer), fixed, signers, amount, elapsed)
            <= signers,
{
    lemma_remove_below_best(tiers@, amount, k);
}

} // verus!
