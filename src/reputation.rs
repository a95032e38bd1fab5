//! Reputation scoring and its decay toward the neutral score.

use vstd::prelude::*;
use crate::types::{Reputation, MAX_SCORE, NEUTRAL_SCORE};

verus! {

/// Ledgers in one decay period (about 30 days).
pub const DECAY_INTERVAL: u64 = 518_400;

/// Score gained when one of the proposer's proposals is executed.
pub const EXECUTION_BONUS: u32 = 10;

/// Score lost when one of the proposer's proposals is rejected.
pub const REJECTION_PENALTY: u32 = 20;

/// One period of decay: 5% of the distance to neutral, at least 1.
pub open spec fn decay_step(score: int) -> int {
    if score > 500 {
        score - ((score - 500) / 20 + 1)
    } else if score < 500 {
        score + ((500 - score) / 20 + 1)
    } else {
        score
    }
}

/// `periods` periods of decay.
pub open spec fn decay_periods(score: int, periods: nat) -> int
    decreases periods,
{
    if periods == 0 {
        score
    } else {
        decay_periods(decay_step(score), (periods - 1) as nat)
    }
}

/// Whole decay periods between `last` and `now` (none if `now` is earlier).
pub open spec fn elapsed_periods(last: u64, now: u64) -> nat {
    if now <= last {
        0
    } else {
        ((now - last) / (DECAY_INTERVAL as int)) as nat
    }
}

/// The record after decay is applied at ledger `now`.
pub open spec fn decayed(rep: Reputation, now: u64) -> Reputation {
    if rep.last_decay_ledger == 0 {
        Reputation { last_decay_ledger: now, ..rep }
    } else if elapsed_periods(rep.last_decay_ledger, now) == 0 {
        rep
    } else {
        Reputation {
            score: decay_periods(rep.score as int, elapsed_periods(rep.last_decay_ledger, now))
                as u32,
            last_decay_ledger: now,
            ..rep
        }
    }
}

/// Distance to neutral never grows and the side of neutral is kept.
pub proof fn lemma_decay_step_toward_neutral(score: int)
    requires
        0 <= score <= 1000,
    ensures
        score >= 500 ==> 500 <= decay_step(score) <= score,
        score <= 500 ==> score <= decay_step(score) <= 500,
        score != 500 ==> decay_step(score) != score,
{
}

/// Decay over any number of periods stays between the start and neutral,
/// for any starting score in [0, 1000]; it never overshoots 500.
pub proof fn lemma_decay_converges(score: int, periods: nat)
    requires
        0 <= score <= 1000,
    ensures
        score >= 500 ==> 500 <= decay_periods(score, periods) <= score,
        score <= 500 ==> score <= decay_periods(score, periods) <= 500,
        periods > 0 && score != 500 ==> decay_periods(score, periods) != score,
    decreases periods,
{
    if periods > 0 {
        lemma_decay_step_toward_neutral(score);
        lemma_decay_converges(decay_step(score), (periods - 1) as nat);
    }
}

/// One more period never moves the score away from neutral.
pub proof fn lemma_decay_monotone(score: int, periods: nat)
    requires
        0 <= score <= 1000,
    ensures
        score >= 500 ==> 500 <= decay_periods(score, periods + 1) <= decay_periods(score, periods),
        score <= 500 ==> decay_periods(score, periods) <= decay_periods(score, periods + 1) <= 500,
    decreases periods,
{
    if periods == 0 {
        lemma_decay_step_toward_neutral(score);
        assert(decay_periods(decay_step(score), 0) == decay_step(score));
    } else {
        lemma_decay_step_toward_neutral(score);
        lemma_decay_monotone(decay_step(score), (periods - 1) as nat);
    }
}

/// Decay applied twice within one period, at ledgers `first <= second` that
/// lie in the same 30-day period counted from the record's last decay,
/// changes nothing the second time.
pub proof fn lemma_decay_idempotent(rep: Reputation, first: u64, second: u64)
    requires
        rep.wf(),
        0 < first <= second,
        second - first < DECAY_INTERVAL,
        rep.last_decay_ledger == 0 || elapsed_periods(rep.last_decay_ledger, second)
            == elapsed_periods(rep.last_decay_ledger, first),
    ensures
        decayed(decayed(rep, first), second) == decayed(rep, first),
{
}

fn step(score: u32) -> (r: u32)
    requires
        score <= MAX_SCORE,
    ensures
        r == decay_step(score as int),
        r <= MAX_SCORE,
{
    if score > NEUTRAL_SCORE {
        let diff = score - NEUTRAL_SCORE;
        score - (diff / 20 + 1)
    } else if score < NEUTRAL_SCORE {
        let diff = NEUTRAL_SCORE - score;
        score + (diff / 20 + 1)
    } else {
        score
    }
}

/// Applies time-based decay at ledger `current_ledger`: every whole 30-day
/// period since the last decay moves the score 5% (at least 1) toward 500.
/// A record that was never decayed is only stamped.
pub fn apply_reputation_decay(rep: &mut Reputation, current_ledger: u64)
    requires
        old(rep).wf(),
    ensures
        *final(rep) == decayed(*old(rep), current_ledger),
        final(rep).wf(),
{
    if rep.last_decay_ledger == 0 {
        rep.last_decay_ledger = current_ledger;
        return;
    }
    let elapsed: u64 = if current_ledger > rep.last_decay_ledger {
        current_ledger - rep.last_decay_ledger
    } else {
        0
    };
    let periods: u64 = elapsed / DECAY_INTERVAL;
    if periods == 0 {
        return;
    }
    let ghost total: nat = periods as nat;
    let ghost start: int = rep.score as int;
    let mut i: u64 = 0;
    while i < periods && rep.score != NEUTRAL_SCORE
        invariant
            i <= periods,
            periods == total,
            total == elapsed_periods(old(rep).last_decay_ledger, current_ledger),
            start == old(rep).score,
            rep.score <= MAX_SCORE,
            decay_periods(rep.score as int, (total - i) as nat) == decay_periods(start, total),
            rep.last_decay_ledger == old(rep).last_decay_ledger,
            rep.proposals_executed == old(rep).proposals_executed,
            rep.proposals_rejected == old(rep).proposals_rejected,
            rep.proposals_created == old(rep).proposals_created,
            rep.approvals_given == old(rep).approvals_given,
        decreases periods - i,
    {
        assert(decay_periods(rep.score as int, (total - i) as nat) == decay_periods(
            decay_step(rep.score as int),
            (total - i - 1) as nat,
        ));
        rep.score = step(rep.score);
        i = i + 1;
    }
    proof {
        if rep.score == NEUTRAL_SCORE {
            lemma_neutral_fixed((total - i) as nat);
        }
    }
    rep.last_decay_ledger = current_ledger;
}

proof fn lemma_neutral_fixed(periods: nat)
    ensures
        decay_periods(500, periods) == 500,
    decreases periods,
{
    if periods > 0 {
        lemma_neutral_fixed((periods - 1) as nat);
    }
}

/// Score after an execution: `score + 10`, capped at 1000.
pub open spec fn bonus_spec(score: int) -> int {
    if score + EXECUTION_BONUS > MAX_SCORE {
        MAX_SCORE as int
    } else {
        score + EXECUTION_BONUS
    }
}

/// Score after a rejection: `score - 20`, floored at 0.
pub open spec fn penalty_spec(score: int) -> int {
    if score < REJECTION_PENALTY {
        0
    } else {
        score - REJECTION_PENALTY
    }
}

/// Counter incremented, saturating at `u32::MAX`.
pub open spec fn bump(n: u32) -> u32 {
    if n == u32::MAX {
        n
    } else {
        (n + 1) as u32
    }
}

pub fn bump_counter(n: u32) -> (r: u32)
    ensures
        r == bump(n),
{
    if n == u32::MAX {
        n
    } else {
        n + 1
    }
}

/// Records an executed proposal: one more execution and the score bonus.
pub fn record_execution(rep: &mut Reputation)
    requires
        old(rep).wf(),
    ensures
        *final(rep) == (Reputation {
            score: bonus_spec(old(rep).score as int) as u32,
            proposals_executed: bump(old(rep).proposals_executed),
            ..*old(rep)
        }),
        final(rep).wf(),
{
    rep.score = if rep.score + EXECUTION_BONUS > MAX_SCORE {
        MAX_SCORE
    } else {
        rep.score + EXECUTION_BONUS
    };
    rep.proposals_executed = bump_counter(rep.proposals_executed);
}

/// Records a rejected proposal: one more rejection and the score penalty.
pub fn record_rejection(rep: &mut Reputation)
    requires
        old(rep).wf(),
    ensures
        *final(rep) == (Reputation {
            score: penalty_spec(old(rep).score as int) as u32,
            proposals_rejected: bump(old(rep).proposals_rejected),
            ..*old(rep)
        }),
        final(rep).wf(),
{
    rep.score = if rep.score < REJECTION_PENALTY {
        0
    } else {
        rep.score - REJECTION_PENALTY
    };
    rep.proposals_rejected = bump_counter(rep.proposals_rejected);
}

} // verus!
