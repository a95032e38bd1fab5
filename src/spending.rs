//! Spending guard: per-proposal, daily and weekly caps, and the per-proposer
//! sliding-window velocity limit.

use vstd::prelude::*;
use crate::storage::{
    add_daily_spent, add_weekly_spent, bucket, get_daily_spent, get_weekly_spent, Storage,
    SECONDS_PER_DAY, SECONDS_PER_WEEK,
};
use crate::types::{Address, VaultError, VelocityConfig};

verus! {

broadcast use vstd::std_specs::hash::group_hash_axioms;

/// Whether `amount` fits the per-proposal cap and, on top of what was spent,
/// the daily and weekly caps.
pub open spec fn spending_allowed(
    amount: int,
    day_spent: int,
    week_spent: int,
    spending_limit: int,
    daily_limit: int,
    weekly_limit: int,
) -> bool {
    &&& amount <= spending_limit
    &&& day_spent + amount <= daily_limit
    &&& week_spent + amount <= weekly_limit
}

/// The caps check on plain values.
pub fn check_spending(
    amount: i128,
    day_spent: i128,
    week_spent: i128,
    spending_limit: i128,
    daily_limit: i128,
    weekly_limit: i128,
) -> (r: bool)
    requires
        amount >= 0,
    ensures
        r == spending_allowed(
            amount as int,
            day_spent as int,
            week_spent as int,
            spending_limit as int,
            daily_limit as int,
            weekly_limit as int,
        ),
{
    if amount > spending_limit {
        return false;
    }
    let day_total = match day_spent.checked_add(amount) {
        Some(t) => t,
        None => {
            return false;
        },
    };
    if day_total > daily_limit {
        return false;
    }
    let week_total = match week_spent.checked_add(amount) {
        Some(t) => t,
        None => {
            return false;
        },
    };
    week_total <= weekly_limit
}

/// Checks `amount` against the caps for the day and week of
/// `timestamp`, and on success adds it to both buckets. On failure nothing
/// changes.
pub fn check_and_reserve(
    store: &mut Storage,
    spending_limit: i128,
    daily_limit: i128,
    weekly_limit: i128,
    amount: i128,
    timestamp: u64,
) -> (r: Result<(), VaultError>)
    requires
        old(store).wf(),
        amount >= 0,
    ensures
        final(store).wf(),
        ({
            let day = timestamp / SECONDS_PER_DAY;
            let week = timestamp / SECONDS_PER_WEEK;
            let ok = spending_allowed(
                amount as int,
                bucket(old(store).daily_spent@, day as u64),
                bucket(old(store).weekly_spent@, week as u64),
                spending_limit as int,
                daily_limit as int,
                weekly_limit as int,
            );
            &&& ok ==> r is Ok && final(store).daily_spent@ == old(store).daily_spent@.insert(
                day as u64,
                (bucket(old(store).daily_spent@, day as u64) + amount) as i128,
            ) && final(store).weekly_spent@ == old(store).weekly_spent@.insert(
                week as u64,
                (bucket(old(store).weekly_spent@, week as u64) + amount) as i128,
            ) && *final(store) == (Storage {
                daily_spent: final(store).daily_spent,
                weekly_spent: final(store).weekly_spent,
                ..*old(store)
            })
            &&& !ok ==> r == Err::<(), VaultError>(VaultError::LimitExceeded) && *final(store)
                == *old(store)
        }),
{
    let day = timestamp / SECONDS_PER_DAY;
    let week = timestamp / SECONDS_PER_WEEK;
    let day_spent = get_daily_spent(store, day);
    let week_spent = get_weekly_spent(store, week);
    if !check_spending(
        amount,
        day_spent,
        week_spent,
        spending_limit,
        daily_limit,
        weekly_limit,
    ) {
        return Err(VaultError::LimitExceeded);
    }
    add_daily_spent(store, day, amount);
    add_weekly_spent(store, week, amount);
    Ok(())
}

/// Start of the velocity window ending at `now`: entries at or before it are
/// out of the window. Negative when the window reaches back before time 0,
/// in which case no entry is out.
pub open spec fn window_start(now: u64, window: u64) -> int {
    now - window
}

/// Timestamps of `history` strictly after `start`, order kept.
pub open spec fn pruned(history: Seq<u64>, start: int) -> Seq<u64> {
    history.filter(|t: u64| t > start)
}

/// Velocity decision: the history after pruning, with `now` appended when
/// fewer than `limit` entries remain; `None` when the limit is reached.
pub open spec fn velocity_step(history: Seq<u64>, now: u64, config: VelocityConfig) -> Option<
    Seq<u64>,
> {
    let kept = pruned(history, window_start(now, config.window));
    if kept.len() >= config.limit {
        None
    } else {
        Some(kept.push(now))
    }
}

/// Drops the timestamps at or before `start`.
pub fn prune_history(history: &Vec<u64>, start: u64) -> (r: Vec<u64>)
    ensures
        r@ == pruned(history@, start as int),
{
    let mut kept: Vec<u64> = Vec::new();
    let mut i: usize = 0;
    while i < history.len()
        invariant
            i <= history@.len(),
            kept@ == pruned(history@.take(i as int), start as int),
        decreases history@.len() - i,
    {
        let ts = history[i];
        proof {
            reveal(Seq::filter);
            assert(history@.take(i as int + 1).drop_last() == history@.take(i as int));
        }
        if ts > start {
            kept.push(ts);
        }
        i = i + 1;
    }
    assert(history@.take(history@.len() as int) == history@);
    kept
}

/// Velocity history of `addr`, empty when none is stored.
pub open spec fn history_of(m: Map<Address, Vec<u64>>, addr: Address) -> Seq<u64> {
    if m.contains_key(addr) {
        m[addr]@
    } else {
        Seq::empty()
    }
}

} // verus!

verus! {

/// A start before every timestamp prunes nothing.
pub(crate) proof fn lemma_pruned_before_all(history: Seq<u64>, start: int)
    requires
        start < 0,
    ensures
        pruned(history, start) == history,
    decreases history.len(),
{
    reveal(Seq::filter);
    if history.len() > 0 {
        lemma_pruned_before_all(history.drop_last(), start);
        assert(history.drop_last().push(history.last()) == history);
    }
}

/// Sum of a sequence.
pub open spec fn total(s: Seq<int>) -> int
    decreases s.len(),
{
    if s.len() == 0 {
        0
    } else {
        total(s.drop_last()) + s.last()
    }
}

/// Amounts accepted one after another by the guard within one day and one
/// week, each against the bucket that the earlier ones filled, never sum to
/// more than the daily cap nor the weekly cap. `day_start` and `week_start`
/// are what the buckets held before.
pub proof fn lemma_accepted_within_caps(
    amounts: Seq<int>,
    day_start: int,
    week_start: int,
    spending_limit: int,
    daily_limit: int,
    weekly_limit: int,
)
    requires
        amounts.len() > 0,
        forall|i: int|
            #![trigger amounts[i]]
            0 <= i < amounts.len() ==> spending_allowed(
                amounts[i],
                day_start + total(amounts.take(i)),
                week_start + total(amounts.take(i)),
                spending_limit,
                daily_limit,
                weekly_limit,
            ),
    ensures
        day_start + total(amounts) <= daily_limit,
        week_start + total(amounts) <= weekly_limit,
{
    let n = amounts.len() - 1;
    assert(amounts.take(n + 1) == amounts);
    assert(amounts.take(n + 1).drop_last() == amounts.take(n));
    assert(spending_allowed(
        amounts[n],
        day_start + total(amounts.take(n)),
        week_start + total(amounts.take(n)),
        spending_limit,
        daily_limit,
        weekly_limit,
    ));
}

} // verus!

verus! {

/// The history after the velocity check has run at each of `times`, from
/// `history`.
pub open spec fn velocity_run(history: Seq<u64>, times: Seq<u64>, config: VelocityConfig) -> Seq<
    u64,
>
    decreases times.len(),
{
    if times.len() == 0 {
        history
    } else {
        let h = velocity_run(history, times.drop_last(), config);
        match velocity_step(h, times.last(), config) {
            Some(next) => next,
            None => h,
        }
    }
}

/// The times among `times` that the velocity check accepted, from an empty
/// history.
pub open spec fn accepted_times(times: Seq<u64>, config: VelocityConfig) -> Seq<u64>
    decreases times.len(),
{
    if times.len() == 0 {
        Seq::empty()
    } else {
        let a = accepted_times(times.drop_last(), config);
        let h = velocity_run(Seq::empty(), times.drop_last(), config);
        if velocity_step(h, times.last(), config) is Some {
            a.push(times.last())
        } else {
            a
        }
    }
}

/// Whether `times` never goes backwards.
pub open spec fn nondecreasing(times: Seq<u64>) -> bool {
    forall|i: int, j: int| 0 <= i <= j < times.len() ==> times[i] <= times[j]
}

proof fn lemma_pruned_push(x: Seq<u64>, v: u64, a: int)
    ensures
        pruned(x.push(v), a) == (if v > a {
            pruned(x, a).push(v)
        } else {
            pruned(x, a)
        }),
{
    reveal(Seq::filter);
    assert(x.push(v).drop_last() == x);
}

proof fn lemma_pruned_twice(x: Seq<u64>, a: int, s: int)
    requires
        a <= s,
    ensures
        pruned(pruned(x, a), s) == pruned(x, s),
    decreases x.len(),
{
    reveal(Seq::filter);
    if x.len() > 0 {
        let d = x.drop_last();
        lemma_pruned_twice(d, a, s);
        assert(x == d.push(x.last()));
        lemma_pruned_push(d, x.last(), a);
        lemma_pruned_push(d, x.last(), s);
        if x.last() > a {
            lemma_pruned_push(pruned(d, a), x.last(), s);
        }
    }
}

proof fn lemma_run_tracks_accepted(times: Seq<u64>, config: VelocityConfig, s: int)
    requires
        times.len() > 0,
        nondecreasing(times),
        s >= window_start(times.last(), config.window),
    ensures
        pruned(accepted_times(times, config), s) == pruned(
            velocity_run(Seq::empty(), times, config),
            s,
        ),
    decreases times.len(),
{
    let d = times.drop_last();
    let t = times.last();
    let h = velocity_run(Seq::empty(), d, config);
    let a = accepted_times(d, config);
    let start = window_start(t, config.window);
    if d.len() > 0 {
        assert(d.last() == times[times.len() - 2]);
        assert(d.last() <= t);
        assert(nondecreasing(d));
        lemma_run_tracks_accepted(d, config, s);
    } else {
        reveal(Seq::filter);
    }
    lemma_pruned_push(a, t, s);
    if velocity_step(h, t, config) is Some {
        lemma_pruned_push(pruned(h, start), t, s);
        lemma_pruned_twice(h, start, s);
    }
}

/// Over any run of velocity checks at non-decreasing times, each accepted
/// call at time `t` leaves at most `limit` accepted timestamps in the window
/// `(t - window, t]`.
pub proof fn lemma_velocity_window_bound(times: Seq<u64>, config: VelocityConfig)
    requires
        times.len() > 0,
        nondecreasing(times),
        velocity_step(
            velocity_run(Seq::empty(), times.drop_last(), config),
            times.last(),
            config,
        ) is Some,
    ensures
        pruned(accepted_times(times, config), window_start(times.last(), config.window)).len()
            <= config.limit,
        accepted_times(times, config).last() == times.last(),
{
    let t = times.last();
    let start = window_start(t, config.window);
    let h = velocity_run(Seq::empty(), times.drop_last(), config);
    lemma_run_tracks_accepted(times, config, start);
    let hn = pruned(h, start).push(t);
    assert(velocity_run(Seq::empty(), times, config) == hn);
    hn.filter_lemma(|x: u64| x > start);
}

} // verus!

verus! {

/// The timestamps of `s` inside the window of length `window` that ends at
/// `end`, i.e. in `(end - window, end]`.
pub open spec fn in_window(s: Seq<u64>, end: u64, window: u64) -> Seq<u64> {
    s.filter(|a: u64| end - window < a && a <= end)
}

proof fn lemma_accepted_are_call_times(times: Seq<u64>, config: VelocityConfig, x: u64)
    requires
        accepted_times(times, config).contains(x),
    ensures
        times.contains(x),
    decreases times.len(),
{
    let d = times.drop_last();
    let a = accepted_times(d, config);
    if a.contains(x) {
        lemma_accepted_are_call_times(d, config, x);
        let k = choose|k: int| 0 <= k < d.len() && d[k] == x;
        assert(times[k] == x);
    } else {
        assert(x == times.last());
        assert(times[times.len() - 1] == x);
    }
}

proof fn lemma_window_within_pruned(s: Seq<u64>, end: u64, window: u64, start: int)
    requires
        forall|i: int| 0 <= i < s.len() && end - window < #[trigger] s[i] && s[i] <= end ==> s[i] > start,
    ensures
        in_window(s, end, window).len() <= pruned(s, start).len(),
    decreases s.len(),
{
    reveal(Seq::filter);
    if s.len() > 0 {
        let d = s.drop_last();
        assert forall|i: int| 0 <= i < d.len() && end - window < #[trigger] d[i] && d[i] <= end implies d[i] > start by {
            assert(s[i] == d[i]);
        }
        lemma_window_within_pruned(d, end, window, start);
        assert(s[s.len() - 1] == s.last());
    }
}

proof fn lemma_window_skips_later(s: Seq<u64>, v: u64, end: u64, window: u64)
    requires
        v > end,
    ensures
        in_window(s.push(v), end, window) == in_window(s, end, window),
{
    reveal(Seq::filter);
    assert(s.push(v).drop_last() == s);
}

/// Over any run of velocity checks at non-decreasing timestamps, every window
/// `(end - window, end]` holds at most `limit` accepted timestamps, whatever
/// its end.
pub proof fn lemma_velocity_any_window(times: Seq<u64>, config: VelocityConfig, end: u64)
    requires
        nondecreasing(times),
    ensures
        in_window(accepted_times(times, config), end, config.window).len() <= config.limit,
    decreases times.len(),
{
    if times.len() == 0 {
        reveal(Seq::filter);
    } else {
        let d = times.drop_last();
        let t = times.last();
        assert(nondecreasing(d));
        lemma_velocity_any_window(d, config, end);
        let h = velocity_run(Seq::empty(), d, config);
        let ad = accepted_times(d, config);
        if velocity_step(h, t, config) is Some {
            if t > end {
                lemma_window_skips_later(ad, t, end, config.window);
            } else {
                let all = accepted_times(times, config);
                let start = window_start(t, config.window);
                lemma_velocity_window_bound(times, config);
                assert forall|i: int|
                    0 <= i < all.len() && end - config.window < #[trigger] all[i] && all[i]
                        <= end implies all[i] > start by {
                    assert(all.contains(all[i]));
                    lemma_accepted_are_call_times(times, config, all[i]);
                    let k = choose|k: int| 0 <= k < times.len() && times[k] == all[i];
                    assert(times[k] <= times[times.len() - 1]);
                }
                lemma_window_within_pruned(all, end, config.window, start);
            }
        }
    }
}

} // verus!
