//! kfree_skb: kernel packet drop statistics per drop reason.
//!
//! The BPF map holds cumulative drop counts per reason since program load;
//! each display tick turns them into per-tick deltas and keeps the deltas
//! of the last 10 seconds in a sliding window per reason. The reported rate
//! of a reason is its window sum over the window length; a reason with no
//! drops in the window decays to zero and its series is removed.

use std::collections::HashMap;
use std::collections::VecDeque;
use std::time::Instant;

use vstd::prelude::*;

use crate::kfree_skb_common::{reason_from_code, reason_label, reason_name, SkbDropReason};
use crate::text::{decimal_text, push_decimal, string_from_chars};
use vstd::string::StringExecFns;

verus! {

broadcast use {vstd::std_specs::hash::group_hash_axioms, vstd::seq_lib::group_to_multiset_ensures};

/// A point in monotonic time.
#[verifier::external_type_specification]
#[verifier::external_body]
pub struct ExInstant(Instant);

/// Length of the sliding window for the moving-average drop rate, in
/// nanoseconds (10 seconds).
pub const RATE_WINDOW_NS: u128 = 10_000_000_000;

/// Length of the sliding window in whole seconds.
pub const RATE_WINDOW_SECS: u64 = 10;

/// Nanoseconds elapsed from `earlier` to `later`, as `Instant::duration_since`
/// measures them.
pub uninterp spec fn nanos_between(later: Instant, earlier: Instant) -> nat;

/// `Instant::duration_since`: the time from `earlier` to `later` (zero if
/// `earlier` is the later one), read as whole nanoseconds. The contract
/// names the result; it says nothing of how instants compare.
#[verifier::external_body]
fn elapsed_nanos(later: Instant, earlier: Instant) -> (nanos: u128)
    ensures
        nanos == nanos_between(later, earlier),
{
    later.duration_since(earlier).as_nanos()
}

/// The value a cumulative counter of `reason` was last seen at (0 if never).
pub open spec fn last_seen(last_counts: Map<u32, u64>, reason: u32) -> u64 {
    if last_counts.contains_key(reason) {
        last_counts[reason]
    } else {
        0
    }
}

/// The increase of a cumulative counter since it was last seen, 0 if it went
/// backwards.
pub open spec fn saturating_delta(count: u64, prev: u64) -> u64 {
    if count >= prev {
        (count - prev) as u64
    } else {
        0
    }
}

/// Compute the increment for a cumulative counter read from the BPF map: the
/// difference since the last value seen for this reason (0 if the value went
/// backwards, e.g. after a map reset). Updates `last_counts`.
pub fn counter_delta(last_counts: &mut HashMap<u32, u64>, reason: u32, count: u64) -> (delta: u64)
    ensures
        delta == saturating_delta(count, last_seen(old(last_counts)@, reason)),
        final(last_counts)@ == old(last_counts)@.insert(reason, count),
{
    let prev = match last_counts.insert(reason, count) {
        Some(p) => p,
        None => 0,
    };
    count.saturating_sub(prev)
}

/// Sum of the deltas held in a window.
pub open spec fn delta_sum(window: Seq<(Instant, u64)>) -> nat
    decreases window.len(),
{
    if window.len() == 0 {
        0
    } else {
        delta_sum(window.drop_last()) + window.last().1 as nat
    }
}

/// Whether an entry stamped `t` has left the window at `now`.
pub open spec fn expired(now: Instant, t: Instant) -> bool {
    nanos_between(now, t) > RATE_WINDOW_NS
}

/// The window with its oldest entries evicted while they are older than the
/// window length.
pub open spec fn evict_expired(window: Seq<(Instant, u64)>, now: Instant) -> Seq<(Instant, u64)>
    decreases window.len(),
{
    if window.len() > 0 && expired(now, window[0].0) {
        evict_expired(window.drop_first(), now)
    } else {
        window
    }
}

/// The window after a tick at `now` with drop delta `delta`: a non-zero
/// delta is appended, then the expired entries at the front are evicted.
pub open spec fn window_after(window: Seq<(Instant, u64)>, now: Instant, delta: u64) -> Seq<
    (Instant, u64),
> {
    evict_expired(
        if delta > 0 {
            window.push((now, delta))
        } else {
            window
        },
        now,
    )
}

/// The sum of a window is its first delta plus the sum of the rest.
proof fn lemma_delta_sum_drop_first(window: Seq<(Instant, u64)>)
    requires
        window.len() > 0,
    ensures
        delta_sum(window) == window[0].1 + delta_sum(window.drop_first()),
    decreases window.len(),
{
    if window.len() > 1 {
        lemma_delta_sum_drop_first(window.drop_last());
        assert(window.drop_last().drop_first() =~= window.drop_first().drop_last());
        assert(window.drop_first().last() == window.last());
    } else {
        assert(window.drop_last() =~= Seq::<(Instant, u64)>::empty());
        assert(window.drop_first() =~= Seq::<(Instant, u64)>::empty());
    }
}

/// Evicting entries never raises the sum of a window.
proof fn lemma_evict_sum(window: Seq<(Instant, u64)>, now: Instant)
    ensures
        delta_sum(evict_expired(window, now)) <= delta_sum(window),
    decreases window.len(),
{
    if window.len() > 0 && expired(now, window[0].0) {
        lemma_delta_sum_drop_first(window);
        lemma_evict_sum(window.drop_first(), now);
    }
}

/// The number of leading entries older than the window length, given the
/// age of every entry (in nanoseconds, oldest entry first).
pub open spec fn expired_prefix(ages: Seq<int>) -> nat
    decreases ages.len(),
{
    if ages.len() > 0 && ages[0] > RATE_WINDOW_NS {
        1 + expired_prefix(ages.drop_first())
    } else {
        0
    }
}

/// The ages of a window's entries at `now`.
pub open spec fn ages_of(window: Seq<(Instant, u64)>, now: Instant) -> Seq<int> {
    window.map_values(|e: (Instant, u64)| nanos_between(now, e.0) as int)
}

/// The ages as integers.
pub open spec fn age_values(ages: Seq<u128>) -> Seq<int> {
    ages.map_values(|a: u128| a as int)
}

/// Evicting the expired front entries leaves the window without its
/// expired prefix.
proof fn lemma_evict_is_skip(window: Seq<(Instant, u64)>, now: Instant)
    ensures
        expired_prefix(ages_of(window, now)) <= window.len(),
        evict_expired(window, now) == window.skip(expired_prefix(ages_of(window, now)) as int),
    decreases window.len(),
{
    let ages = ages_of(window, now);
    if window.len() > 0 && expired(now, window[0].0) {
        assert(ages.drop_first() =~= ages_of(window.drop_first(), now));
        lemma_evict_is_skip(window.drop_first(), now);
        assert(window.drop_first().skip(expired_prefix(ages.drop_first()) as int) =~= window.skip(
            expired_prefix(ages) as int,
        ));
    } else {
        assert(window.skip(0) =~= window);
    }
}

/// Evict the entries at the front of the window that are older than the
/// window length, given the age of every entry (oldest first, in
/// nanoseconds), and return the sum of the remaining deltas.
pub fn evict_and_sum(window: &mut VecDeque<(Instant, u64)>, ages: &Vec<u128>) -> (sum: u128)
    requires
        old(window)@.len() == ages@.len(),
    ensures
        expired_prefix(age_values(ages@)) <= old(window)@.len(),
        final(window)@ == old(window)@.skip(expired_prefix(age_values(ages@)) as int),
        sum == delta_sum(final(window)@),
{
    let ghost start = window@;
    let mut k: usize = 0;
    assert(age_values(ages@).skip(0) =~= age_values(ages@));
    assert(start.skip(0) =~= start);
    while k < ages.len() && ages[k] > RATE_WINDOW_NS
        invariant
            k <= ages.len(),
            ages@.len() == start.len(),
            window@ == start.skip(k as int),
            expired_prefix(age_values(ages@)) == k + expired_prefix(age_values(ages@).skip(k as int)),
        decreases ages.len() - k,
    {
        proof {
            let rest = age_values(ages@).skip(k as int);
            assert(rest[0] == ages@[k as int] as int);
            assert(rest.drop_first() =~= age_values(ages@).skip(k + 1));
        }
        window.pop_front();
        assert(window@ =~= start.skip(k + 1));
        k = k + 1;
    }
    proof {
        let rest = age_values(ages@).skip(k as int);
        if k < ages.len() {
            assert(rest[0] == ages@[k as int] as int);
        } else {
            assert(rest.len() == 0);
        }
    }
    let mut sum: u128 = 0;
    let mut i: usize = 0;
    while i < window.len()
        invariant
            i <= window@.len(),
            sum == delta_sum(window@.take(i as int)),
            sum <= i * 0x1_0000_0000_0000_0000,
        decreases window@.len() - i,
    {
        assert(window@.take(i + 1).drop_last() =~= window@.take(i as int));
        assert(sum + window@[i as int].1 <= (i + 1) * 0x1_0000_0000_0000_0000);
        sum = sum + window[i].1 as u128;
        i = i + 1;
    }
    assert(window@.take(i as int) =~= window@);
    sum
}

/// Push a per-tick delta into the sliding window, evict entries older than
/// the window length, and return the sum of the remaining deltas, computed
/// without bound.
pub fn advance_window(window: &mut VecDeque<(Instant, u64)>, now: Instant, delta: u64) -> (sum: u128)
    ensures
        final(window)@ == window_after(old(window)@, now, delta),
        sum == delta_sum(final(window)@),
{
    let ghost pushed = if delta > 0 {
        old(window)@.push((now, delta))
    } else {
        old(window)@
    };
    if delta > 0 {
        window.push_back((now, delta));
    }
    assert(window@ == pushed);
    let mut ages: Vec<u128> = Vec::new();
    let mut i: usize = 0;
    while i < window.len()
        invariant
            window@ == pushed,
            i <= pushed.len(),
            age_values(ages@) == ages_of(pushed, now).take(i as int),
        decreases pushed.len() - i,
    {
        let stamp = window[i].0;
        assert(stamp == pushed[i as int].0);
        let age = elapsed_nanos(now, stamp);
        let ghost before = ages@;
        ages.push(age);
        assert(ages@ == before.push(age));
        assert(ages_of(pushed, now)[i as int] == age as int);
        assert(age_values(ages@) =~= age_values(before).push(age as int));
        assert(ages_of(pushed, now).take(i + 1) =~= ages_of(pushed, now).take(i as int).push(
            age as int,
        ));
        i = i + 1;
    }
    assert(age_values(ages@) =~= ages_of(pushed, now));
    proof {
        lemma_evict_is_skip(pushed, now);
    }
    evict_and_sum(window, &ages)
}

/// Push a per-tick delta into the sliding window, evict entries older than
/// the window length, and return the sum of the remaining deltas.
pub fn update_window(window: &mut VecDeque<(Instant, u64)>, now: Instant, delta: u64) -> (sum: u64)
    requires
        delta_sum(window_after(old(window)@, now, delta)) <= u64::MAX,
    ensures
        final(window)@ == window_after(old(window)@, now, delta),
        sum == delta_sum(final(window)@),
{
    let total = advance_window(window, now, delta);
    total as u64
}

/// Whether `rows` are ordered by their count, largest first.
pub open spec fn sorted_by_count_desc(rows: Seq<(u32, u64)>) -> bool {
    forall|i: int, j: int| 0 <= i < j < rows.len() ==> rows[i].1 >= rows[j].1
}

/// The rows with count `k`.
pub open spec fn count_is(k: u64) -> spec_fn((u32, u64)) -> bool {
    |r: (u32, u64)| r.1 == k
}

/// Inserting `row` after every row with a count at least as large, and
/// before every smaller one, keeps the rows of each count in their order
/// and puts `row` last among those of its count.
proof fn lemma_insert_keeps_order(before: Seq<(u32, u64)>, p: int, row: (u32, u64), k: u64)
    requires
        0 <= p <= before.len(),
        forall|j: int| 0 <= j < p ==> before[j].1 >= row.1,
        forall|j: int| p <= j < before.len() ==> before[j].1 < row.1,
    ensures
        before.insert(p, row).filter(count_is(k)) == (if row.1 == k {
            before.filter(count_is(k)).push(row)
        } else {
            before.filter(count_is(k))
        }),
{
    let f = count_is(k);
    let a = before.take(p);
    let b = before.skip(p);
    assert(before =~= a + b);
    assert(before.insert(p, row) =~= a.push(row) + b);
    Seq::filter_distributes_over_add(a.push(row), b, f);
    Seq::filter_distributes_over_add(a, b, f);
    crate::seqs::lemma_filter_push(a, row, f);
    if row.1 == k {
        assert forall|i: int| 0 <= i < b.len() implies !f(b[i]) by {
            assert(b[i] == before[p + i]);
        }
        crate::seqs::lemma_filter_none(b, f);
        assert(a.filter(f) + b.filter(f) =~= a.filter(f));
        assert(a.filter(f).push(row) + b.filter(f) =~= a.filter(f).push(row));
    } else {
        assert(a.filter(f) + b.filter(f) =~= a.filter(f) + b.filter(f));
    }
}

/// The rows ordered by count, largest first; rows with equal counts keep
/// their relative order.
pub fn sort_by_count_desc(rows: &Vec<(u32, u64)>) -> (sorted: Vec<(u32, u64)>)
    ensures
        sorted@.to_multiset() == rows@.to_multiset(),
        sorted_by_count_desc(sorted@),
        forall|k: u64| #[trigger] sorted@.filter(count_is(k)) == rows@.filter(count_is(k)),
{
    let mut sorted: Vec<(u32, u64)> = Vec::new();
    let mut i: usize = 0;
    while i < rows.len()
        invariant
            i <= rows.len(),
            sorted@.to_multiset() == rows@.take(i as int).to_multiset(),
            sorted_by_count_desc(sorted@),
            forall|k: u64| #[trigger]
                sorted@.filter(count_is(k)) == rows@.take(i as int).filter(count_is(k)),
        decreases rows.len() - i,
    {
        let row = rows[i];
        let mut p: usize = 0;
        while p < sorted.len() && sorted[p].1 >= row.1
            invariant
                p <= sorted.len(),
                forall|j: int| 0 <= j < p ==> sorted@[j].1 >= row.1,
            decreases sorted.len() - p,
        {
            p = p + 1;
        }
        let ghost before = sorted@;
        proof {
            if p < sorted.len() {
                assert forall|j: int| p <= j < before.len() implies before[j].1 < row.1 by {
                    assert(before[p as int].1 >= before[j].1);
                }
            }
        }
        sorted.insert(p, row);
        proof {
            assert(sorted@ == before.insert(p as int, row));
            assert(rows@.take(i + 1) =~= rows@.take(i as int).push(row));
            vstd::seq_lib::to_multiset_insert(before, p as int, row);
            vstd::seq_lib::to_multiset_build(rows@.take(i as int), row);
            assert forall|k: u64| #[trigger]
                sorted@.filter(count_is(k)) == rows@.take(i + 1).filter(count_is(k)) by {
                lemma_insert_keeps_order(before, p as int, row, k);
                crate::seqs::lemma_filter_push(rows@.take(i as int), row, count_is(k));
            }
            assert forall|a: int, b: int| 0 <= a < b < sorted@.len() implies sorted@[a].1
                >= sorted@[b].1 by {
                if b < p {
                    assert(sorted@[a] == before[a] && sorted@[b] == before[b]);
                } else if b == p {
                    assert(sorted@[a] == before[a]);
                } else if a < p {
                    assert(sorted@[a] == before[a] && sorted@[b] == before[b - 1]);
                } else if a == p {
                    assert(sorted@[b] == before[b - 1]);
                } else {
                    assert(sorted@[a] == before[a - 1] && sorted@[b] == before[b - 1]);
                }
            }
        }
        i = i + 1;
    }
    assert(rows@.take(rows.len() as int) =~= rows@);
    sorted
}

/// The window held for `reason`, empty when there is none.
pub open spec fn window_of(windows: Map<u32, Seq<(Instant, u64)>>, reason: u32) -> Seq<
    (Instant, u64),
> {
    if windows.contains_key(reason) {
        windows[reason]
    } else {
        Seq::empty()
    }
}

/// The contents of a map of windows.
pub open spec fn window_map(windows: Map<u32, VecDeque<(Instant, u64)>>) -> Map<
    u32,
    Seq<(Instant, u64)>,
> {
    Map::new(|k: u32| windows.contains_key(k), |k: u32| windows[k]@)
}

/// The state of the drop-rate bookkeeping while a tick runs over the
/// cumulative counts: last seen counts, windows, the reasons with drops in
/// their window (with the window sum) and the reasons that decayed to zero.
pub struct DropState {
    pub last_counts: Map<u32, u64>,
    pub windows: Map<u32, Seq<(Instant, u64)>>,
    pub rows: Seq<(u32, u64)>,
    pub decayed: Seq<u32>,
}

/// The bookkeeping after the cumulative count `count` of `reason` is read at
/// `now`: its delta enters the reason's window; a window with drops left
/// yields a row with its sum, an empty one is dropped and the reason decays.
pub open spec fn drop_step(st: DropState, reason: u32, count: u64, now: Instant) -> DropState {
    let delta = saturating_delta(count, last_seen(st.last_counts, reason));
    let w = window_after(window_of(st.windows, reason), now, delta);
    let last_counts = st.last_counts.insert(reason, count);
    if delta_sum(w) == 0 {
        DropState {
            last_counts,
            windows: st.windows.remove(reason),
            rows: st.rows,
            decayed: st.decayed.push(reason),
        }
    } else {
        DropState {
            last_counts,
            windows: st.windows.insert(reason, w),
            rows: st.rows.push((reason, delta_sum(w) as u64)),
            decayed: st.decayed,
        }
    }
}

/// The bookkeeping after the first `n` cumulative counts.
pub open spec fn drop_steps(st: DropState, counts: Seq<(u32, u64)>, now: Instant, n: nat) -> DropState
    decreases n,
{
    if n == 0 || n > counts.len() {
        st
    } else {
        let before = drop_steps(st, counts, now, (n - 1) as nat);
        drop_step(before, counts[n - 1].0, counts[n - 1].1, now)
    }
}

/// Whether the window sum of a step fits in `u64`: the sum of the
/// reason's window after its delta entered and expired entries left.
pub open spec fn step_fits(st: DropState, reason: u32, count: u64, now: Instant) -> bool {
    let delta = saturating_delta(count, last_seen(st.last_counts, reason));
    delta_sum(window_after(window_of(st.windows, reason), now, delta)) <= u64::MAX
}

/// Whether the first `n` steps of a tick keep every window sum within `u64`.
pub open spec fn steps_fit(st: DropState, counts: Seq<(u32, u64)>, now: Instant, n: nat) -> bool {
    forall|i: int|
        0 <= i < n ==> #[trigger] step_fits(
            drop_steps(st, counts, now, i as nat),
            counts[i].0,
            counts[i].1,
            now,
        )
}

/// What one display tick of the drop statistics gives: the reasons with
/// drops in their window with the window sum, largest first, and the
/// reasons whose rate decayed to zero (their series is removed).
pub struct DropTick {
    pub rows: Vec<(u32, u64)>,
    pub decayed: Vec<u32>,
}

/// One display tick of the drop statistics over the cumulative counts read
/// from the BPF map (in the map's order): each reason's per-tick delta
/// enters its sliding window at `now`; reasons with drops left in their
/// window are reported with the window sum, largest first, and reasons whose
/// window emptied decay (their window is dropped). A window sum beyond
/// `u64` (which summing the window in `u64` cannot represent) stops the tick
/// with `Err` and the reason whose window overflowed: the first such step.
pub fn drop_rate_tick(
    last_counts: &mut HashMap<u32, u64>,
    windows: &mut HashMap<u32, VecDeque<(Instant, u64)>>,
    counts: &Vec<(u32, u64)>,
    now: Instant,
) -> (tick: Result<DropTick, u32>)
    ensures
        ({
            let start = DropState {
                last_counts: old(last_counts)@,
                windows: window_map(old(windows)@),
                rows: Seq::empty(),
                decayed: Seq::empty(),
            };
            let end = drop_steps(start, counts@, now, counts.len() as nat);
            match tick {
                Ok(t) => {
                    &&& steps_fit(start, counts@, now, counts.len() as nat)
                    &&& final(last_counts)@ == end.last_counts
                    &&& window_map(final(windows)@) == end.windows
                    &&& t.decayed@ == end.decayed
                    &&& t.rows@.to_multiset() == end.rows.to_multiset()
                    &&& sorted_by_count_desc(t.rows@)
                    &&& forall|k: u64| #[trigger]
                        t.rows@.filter(count_is(k)) == end.rows.filter(count_is(k))
                },
                Err(reason) => exists|i: int|
                    0 <= i < counts.len() && steps_fit(start, counts@, now, i as nat)
                        && !step_fits(drop_steps(start, counts@, now, i as nat), counts@[i].0, counts@[i].1, now)
                        && counts@[i].0 == reason,
            }
        }),
{
    let ghost start = DropState {
        last_counts: last_counts@,
        windows: window_map(windows@),
        rows: Seq::empty(),
        decayed: Seq::empty(),
    };
    let mut rows: Vec<(u32, u64)> = Vec::new();
    let mut decayed: Vec<u32> = Vec::new();
    let mut i: usize = 0;
    while i < counts.len()
        invariant
            i <= counts.len(),
            start == (DropState {
                last_counts: old(last_counts)@,
                windows: window_map(old(windows)@),
                rows: Seq::empty(),
                decayed: Seq::empty(),
            }),
            steps_fit(start, counts@, now, i as nat),
            ({
                let st = drop_steps(start, counts@, now, i as nat);
                &&& last_counts@ == st.last_counts
                &&& window_map(windows@) == st.windows
                &&& rows@ == st.rows
                &&& decayed@ == st.decayed
            }),
        decreases counts.len() - i,
    {
        let (reason, count) = counts[i];
        let ghost st = drop_steps(start, counts@, now, i as nat);
        assert(drop_steps(start, counts@, now, (i + 1) as nat) == drop_step(st, reason, count, now));
        let delta = counter_delta(last_counts, reason, count);
        let mut window = match windows.remove(&reason) {
            Some(w) => w,
            None => VecDeque::new(),
        };
        assert(window@ == window_of(st.windows, reason));
        let total = advance_window(&mut window, now, delta);
        if total > u64::MAX as u128 {
            assert(!step_fits(st, reason, count, now));
            assert(counts@[i as int] == (reason, count));
            return Err(reason);
        }
        let sum = total as u64;
        if sum == 0 {
            decayed.push(reason);
            assert(window_map(windows@) =~= st.windows.remove(reason));
        } else {
            rows.push((reason, sum));
            windows.insert(reason, window);
            assert(window_map(windows@) =~= st.windows.insert(reason, window@));
        }
        assert(step_fits(st, reason, count, now));
        assert(steps_fit(start, counts@, now, (i + 1) as nat)) by {
            assert forall|j: int| 0 <= j < i + 1 implies #[trigger] step_fits(
                drop_steps(start, counts@, now, j as nat),
                counts@[j].0,
                counts@[j].1,
                now,
            ) by {
                if j < i {
                }
            }
        }
        i = i + 1;
    }
    let sorted = sort_by_count_desc(&rows);
    Ok(DropTick { rows: sorted, decayed })
}

/// The total of the counts.
pub open spec fn counts_total(counts: Seq<(u32, u64)>) -> nat
    decreases counts.len(),
{
    if counts.len() == 0 {
        0
    } else {
        counts_total(counts.drop_last()) + counts.last().1 as nat
    }
}

/// A drop table: the cumulative counts ordered by count, largest first, and
/// their total.
pub struct DropTable {
    pub rows: Vec<(u32, u64)>,
    pub total: u64,
}

/// Order the cumulative drop counts by count, largest first, and add them up.
pub fn drop_table(counts: &Vec<(u32, u64)>) -> (table: DropTable)
    requires
        counts_total(counts@) <= u64::MAX,
    ensures
        table.rows@.to_multiset() == counts@.to_multiset(),
        sorted_by_count_desc(table.rows@),
        forall|k: u64| #[trigger] table.rows@.filter(count_is(k)) == counts@.filter(count_is(k)),
        table.total == counts_total(counts@),
{
    let rows = sort_by_count_desc(counts);
    let mut total: u64 = 0;
    let mut i: usize = 0;
    while i < counts.len()
        invariant
            i <= counts.len(),
            total == counts_total(counts@.take(i as int)),
            counts_total(counts@) <= u64::MAX,
        decreases counts.len() - i,
    {
        proof {
            lemma_counts_total_prefix(counts@, i + 1);
            assert(counts@.take(i + 1).drop_last() =~= counts@.take(i as int));
        }
        total = total + counts[i].1;
        i = i + 1;
    }
    assert(counts@.take(i as int) =~= counts@);
    DropTable { rows, total }
}

/// The total of a prefix of the counts is at most the total of all.
proof fn lemma_counts_total_prefix(counts: Seq<(u32, u64)>, i: int)
    requires
        0 <= i <= counts.len(),
    ensures
        counts_total(counts.take(i)) <= counts_total(counts),
    decreases counts.len() - i,
{
    if i < counts.len() {
        lemma_counts_total_prefix(counts, i + 1);
        assert(counts.take(i + 1).drop_last() =~= counts.take(i));
    } else {
        assert(counts.take(i) =~= counts);
    }
}

/// The exposition line of one reason's drop count.
pub open spec fn drop_count_line(reason: u32, count: u64) -> Seq<char> {
    "kfree_skb_drops_total{reason=\""@ + reason_label(reason_from_code(reason))
        + "\",reason_id=\""@ + decimal_text(reason as nat) + "\"} "@ + decimal_text(count as nat)
        + "\n"@
}

/// The exposition lines of all rows, in order.
pub open spec fn drop_count_lines(rows: Seq<(u32, u64)>) -> Seq<char>
    decreases rows.len(),
{
    if rows.len() == 0 {
        Seq::empty()
    } else {
        drop_count_lines(rows.drop_last()) + drop_count_line(rows.last().0, rows.last().1)
    }
}

/// The Prometheus text exposition of the drop counts: the per-reason
/// counter lines in the given order, then the total.
pub open spec fn drop_metrics_text(rows: Seq<(u32, u64)>, total: u64) -> Seq<char> {
    "# HELP kfree_skb_drops_total Number of packet drops by reason\n"@
        + "# TYPE kfree_skb_drops_total counter\n"@ + drop_count_lines(rows)
        + "\n# HELP kfree_skb_drops_total_summary Total packet drops\n"@
        + "# TYPE kfree_skb_drops_total_summary counter\n"@ + "kfree_skb_drops_total_summary "@
        + decimal_text(total as nat) + "\n"@
}

/// The decimal text of `n`.
fn decimal_string(n: u64) -> (text: String)
    ensures
        text@ == decimal_text(n as nat),
{
    let mut digits: Vec<char> = Vec::new();
    push_decimal(&mut digits, n);
    assert(digits@ =~= decimal_text(n as nat));
    string_from_chars(&digits)
}

/// The exposition line of one reason's drop count.
fn drop_count_text(reason: u32, count: u64) -> (line: String)
    ensures
        line@ == drop_count_line(reason, count),
{
    let name = reason_name(SkbDropReason::from(reason));
    let mut line = String::from_str("kfree_skb_drops_total{reason=\"");
    line.append(name);
    line.append("\",reason_id=\"");
    let reason_text = decimal_string(reason as u64);
    line.append(reason_text.as_str());
    line.append("\"} ");
    let count_text = decimal_string(count);
    line.append(count_text.as_str());
    line.append("\n");
    line
}

/// Render the cumulative drop counts in the Prometheus text format, the
/// reasons ordered by count (largest first), followed by their total.
pub fn render_drop_metrics(counts: &Vec<(u32, u64)>) -> (text: String)
    requires
        counts_total(counts@) <= u64::MAX,
    ensures
        exists|rows: Seq<(u32, u64)>|
            {
                &&& rows.to_multiset() == counts@.to_multiset()
                &&& sorted_by_count_desc(rows)
                &&& forall|k: u64| #[trigger] rows.filter(count_is(k)) == counts@.filter(count_is(k))
                &&& text@ == drop_metrics_text(rows, counts_total(counts@) as u64)
            },
        text@.len() >= summary_block(counts_total(counts@) as u64).len(),
        text@.skip(text@.len() - summary_block(counts_total(counts@) as u64).len()) == summary_block(
            counts_total(counts@) as u64,
        ),
        counts@.len() == 0 ==> text@ == counter_header() + summary_block(0),
{
    let table = drop_table(counts);
    let mut text = String::from_str("# HELP kfree_skb_drops_total Number of packet drops by reason\n");
    text.append("# TYPE kfree_skb_drops_total counter\n");
    let ghost header = text@;
    let mut i: usize = 0;
    while i < table.rows.len()
        invariant
            i <= table.rows.len(),
            text@ == header + drop_count_lines(table.rows@.take(i as int)),
        decreases table.rows.len() - i,
    {
        let (reason, count) = table.rows[i];
        let line = drop_count_text(reason, count);
        text.append(line.as_str());
        proof {
            let next = table.rows@.take(i + 1);
            assert(next.drop_last() =~= table.rows@.take(i as int));
            assert(next.last() == (reason, count));
        }
        i = i + 1;
    }
    assert(table.rows@.take(i as int) =~= table.rows@);
    text.append("\n# HELP kfree_skb_drops_total_summary Total packet drops\n");
    text.append("# TYPE kfree_skb_drops_total_summary counter\n");
    text.append("kfree_skb_drops_total_summary ");
    let total_text = decimal_string(table.total);
    text.append(total_text.as_str());
    text.append("\n");
    assert(text@ == drop_metrics_text(table.rows@, counts_total(counts@) as u64));
    proof {
        lemma_drop_metrics_frame(table.rows@, table.total);
        if counts@.len() == 0 {
            assert(counts@.to_multiset().len() == 0);
            assert(table.rows@.len() == table.rows@.to_multiset().len());
            assert(counts_total(counts@) == 0);
        }
    }
    text
}

/// The closing block of the exposition: the summary series with the total.
pub open spec fn summary_block(total: u64) -> Seq<char> {
    "\n# HELP kfree_skb_drops_total_summary Total packet drops\n"@
        + "# TYPE kfree_skb_drops_total_summary counter\n"@ + "kfree_skb_drops_total_summary "@
        + decimal_text(total as nat) + "\n"@
}

/// The opening block of the exposition: the per-reason counter's metadata.
pub open spec fn counter_header() -> Seq<char> {
    "# HELP kfree_skb_drops_total Number of packet drops by reason\n"@
        + "# TYPE kfree_skb_drops_total counter\n"@
}

/// Whatever the rows, even none, the exposition opens with the counter's
/// metadata and closes with the summary block, whose last line is
/// `kfree_skb_drops_total_summary <total>`; the rows only add lines in
/// between, so with no rows the text is those two blocks alone.
pub proof fn lemma_drop_metrics_frame(rows: Seq<(u32, u64)>, total: u64)
    ensures
        ({
            let t = drop_metrics_text(rows, total);
            let head = counter_header();
            let tail = summary_block(total);
            &&& t.len() >= head.len() + tail.len()
            &&& t.take(head.len() as int) == head
            &&& t.skip(t.len() - tail.len()) == tail
            &&& rows.len() == 0 ==> t == head + tail
        }),
{
    let t = drop_metrics_text(rows, total);
    let head = counter_header();
    let tail = summary_block(total);
    let mid = drop_count_lines(rows);
    assert(t =~= head + mid + tail);
    assert((head + mid + tail).take(head.len() as int) =~= head);
    assert((head + mid + tail).skip(t.len() - tail.len()) =~= tail);
    if rows.len() == 0 {
        assert(mid =~= Seq::<char>::empty());
        assert(head + mid + tail =~= head + tail);
    }
}

/// Counters are tracked per reason and each read becomes the baseline of
/// the next: after reading `first` for `reason`, reading `second` reports
/// the increase from `first` (0 if it went backwards), and the baselines of
/// other reasons are untouched.
pub proof fn lemma_counter_baseline(last_counts: Map<u32, u64>, reason: u32, first: u64, second: u64, other: u32)
    requires
        other != reason,
    ensures
        saturating_delta(second, last_seen(last_counts.insert(reason, first), reason))
            == saturating_delta(second, first),
        last_seen(last_counts.insert(reason, first), other) == last_seen(last_counts, other),
{
}

/// A tick without new drops never raises a reason's window sum: entries
/// only age out.
pub proof fn lemma_quiet_tick_never_raises_rate(window: Seq<(Instant, u64)>, now: Instant)
    ensures
        delta_sum(window_after(window, now, 0)) <= delta_sum(window),
{
    lemma_evict_sum(window, now);
}

} // verus!
