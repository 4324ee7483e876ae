//! Bounded timestamp histories shared by the gesture, knock and intrusion detectors.
//!
//! A history lives in a fixed array of which the first `len` entries are in use. It is modelled
//! by the sequence of those entries, oldest first.

use vstd::prelude::*;

verus! {

/// The entries of a history stored in the first `len` cells of `cells`.
pub open spec fn live(cells: Seq<u64>, len: int) -> Seq<u64> {
    cells.take(len)
}

/// Subtraction on timestamps that stops at zero.
pub open spec fn monus(a: int, b: int) -> int {
    if a >= b {
        a - b
    } else {
        0
    }
}

/// A history without its leading entries that lie before `oldest`.
pub open spec fn recent(entries: Seq<u64>, oldest: int) -> Seq<u64>
    decreases entries.len(),
{
    if entries.len() == 0 || entries[0] >= oldest {
        entries
    } else {
        recent(entries.drop_first(), oldest)
    }
}

/// A history of at most `capacity` entries with `at` appended; a full history loses its oldest.
pub open spec fn appended(entries: Seq<u64>, capacity: int, at: u64) -> Seq<u64> {
    if entries.len() < capacity {
        entries.push(at)
    } else {
        entries.drop_first().push(at)
    }
}

/// A history after an event at `at`: entries older than `window` go first, then `at` is appended.
pub open spec fn noted(entries: Seq<u64>, capacity: int, at: u64, window: u64) -> Seq<u64> {
    appended(recent(entries, monus(at as int, window as int)), capacity, at)
}

/// What stands from index `first` on is what `recent` keeps, if only stale entries precede it.
proof fn lemma_recent_is_suffix(entries: Seq<u64>, oldest: int, first: int)
    requires
        0 <= first <= entries.len(),
        forall|i: int| 0 <= i < first ==> entries[i] < oldest,
        first == entries.len() || entries[first] >= oldest,
    ensures
        recent(entries, oldest) == entries.skip(first),
    decreases first,
{
    if first == 0 {
        assert(entries.skip(0) == entries);
    } else {
        lemma_recent_is_suffix(entries.drop_first(), oldest, first - 1);
        assert(entries.drop_first().skip(first - 1) == entries.skip(first));
    }
}

/// Drops the leading entries that lie before `oldest`.
pub(crate) fn keep_recent<const N: usize>(cells: &mut [u64; N], len: &mut usize, oldest: u64)
    requires
        *old(len) <= N,
    ensures
        *final(len) <= *old(len),
        live(final(cells)@, *final(len) as int) == recent(
            live(old(cells)@, *old(len) as int),
            oldest as int,
        ),
{
    let count: usize = *len;
    let ghost entries = live(cells@, count as int);
    let mut first: usize = 0;
    while first < count && cells[first] < oldest
        invariant
            first <= count <= N,
            entries == live(cells@, count as int),
            forall|i: int| 0 <= i < first ==> entries[i] < oldest,
        decreases count - first,
    {
        first = first + 1;
    }
    proof {
        lemma_recent_is_suffix(entries, oldest as int, first as int);
    }
    let kept: usize = count - first;
    let mut i: usize = 0;
    while i < kept
        invariant
            i <= kept,
            kept == count - first,
            first <= count <= N,
            entries.len() == count,
            forall|j: int| 0 <= j < i ==> cells@[j] == entries[first + j],
            forall|j: int| first + i <= j < count ==> cells@[j] == entries[j],
        decreases kept - i,
    {
        cells[i] = cells[first + i];
        i = i + 1;
    }
    *len = kept;
    assert(live(cells@, kept as int) == entries.skip(first as int));
}

/// Appends `at`; a full history loses its oldest entry.
pub(crate) fn append<const N: usize>(cells: &mut [u64; N], len: &mut usize, at: u64)
    requires
        0 < N,
        *old(len) <= N,
    ensures
        0 < *final(len) <= N,
        live(final(cells)@, *final(len) as int) == appended(
            live(old(cells)@, *old(len) as int),
            N as int,
            at,
        ),
{
    let count: usize = *len;
    let ghost entries = live(cells@, count as int);
    if count < N {
        cells[count] = at;
        *len = count + 1;
        assert(live(cells@, count + 1) == entries.push(at));
        return;
    }
    let mut i: usize = 0;
    while i < N - 1
        invariant
            i <= N - 1,
            0 < N,
            entries.len() == N,
            forall|j: int| 0 <= j < i ==> cells@[j] == entries[1 + j],
            forall|j: int| i <= j < N ==> cells@[j] == entries[j],
        decreases N - 1 - i,
    {
        cells[i] = cells[i + 1];
        i = i + 1;
    }
    cells[N - 1] = at;
    assert(live(cells@, N as int) == entries.drop_first().push(at));
}

/// Notes an event at `at_ms` in a history that reaches back `window_ms`.
pub(crate) fn push_recent<const N: usize>(
    cells: &mut [u64; N],
    len: &mut usize,
    at_ms: u64,
    window_ms: u64,
)
    requires
        0 < N,
        *old(len) <= N,
    ensures
        0 < *final(len) <= N,
        live(final(cells)@, *final(len) as int) == noted(
            live(old(cells)@, *old(len) as int),
            N as int,
            at_ms,
            window_ms,
        ),
{
    keep_recent(cells, len, at_ms.saturating_sub(window_ms));
    append(cells, len, at_ms);
}

/// Whether timestamps never go back.
pub open spec fn in_order(entries: Seq<u64>) -> bool {
    forall|i: int, j: int| 0 <= i <= j < entries.len() ==> entries[i] <= entries[j]
}

/// `recent` keeps a suffix: it drops only leading entries, all of them stale, and never one that
/// follows an entry it keeps.
pub proof fn recent_keeps_a_suffix(entries: Seq<u64>, oldest: int)
    ensures
        recent(entries, oldest).len() <= entries.len(),
        recent(entries, oldest) == entries.skip(entries.len() - recent(entries, oldest).len()),
        forall|i: int|
            0 <= i < entries.len() - recent(entries, oldest).len() ==> entries[i] < oldest,
    decreases entries.len(),
{
    if entries.len() == 0 || entries[0] >= oldest {
        assert(entries.skip(0) == entries);
    } else {
        let rest = entries.drop_first();
        let kept = recent(rest, oldest).len();
        recent_keeps_a_suffix(rest, oldest);
        assert(rest.skip(rest.len() - kept) == entries.skip(entries.len() - kept));
        assert forall|i: int| 0 <= i < entries.len() - kept implies entries[i] < oldest by {
            if i > 0 {
                assert(rest[i - 1] < oldest);
            }
        }
    }
}

/// With timestamps in order, noting an event keeps them in order, keeps only entries that lie
/// within the window before the event, and ends with the event itself.
pub proof fn noted_stays_in_window(entries: Seq<u64>, capacity: int, at: u64, window: u64)
    requires
        0 < capacity,
        entries.len() <= capacity,
        in_order(entries),
        entries.len() > 0 ==> entries.last() <= at,
    ensures
        ({
            let after = noted(entries, capacity, at, window);
            &&& 0 < after.len() <= capacity
            &&& after.last() == at
            &&& in_order(after)
            &&& forall|i: int| 0 <= i < after.len() ==> at - window <= #[trigger] after[i] <= at
        }),
{
    let oldest = monus(at as int, window as int);
    let kept = recent(entries, oldest);
    recent_keeps_a_suffix(entries, oldest);
    recent_starts_fresh(entries, oldest);
    let dropped = entries.len() - kept.len();
    assert forall|i: int, j: int| 0 <= i <= j < kept.len() implies kept[i] <= kept[j] by {
        assert(kept[i] == entries[dropped + i]);
        assert(kept[j] == entries[dropped + j]);
    }
    assert forall|i: int| 0 <= i < kept.len() implies oldest <= #[trigger] kept[i] <= at by {
        assert(kept[0] <= kept[i]);
        assert(kept[i] == entries[dropped + i]);
    }
}

/// What `recent` keeps is empty or starts with an entry that is not stale.
pub proof fn recent_starts_fresh(entries: Seq<u64>, oldest: int)
    ensures
        recent(entries, oldest).len() > 0 ==> recent(entries, oldest)[0] >= oldest,
    decreases entries.len(),
{
    if entries.len() != 0 && entries[0] < oldest {
        recent_starts_fresh(entries.drop_first(), oldest);
    }
}

/// A history that counts up to `threshold` events: what is on record after an event at `at`, and
/// whether the count is reached. Once it is, the count starts anew.
pub open spec fn counted(
    entries: Seq<u64>,
    capacity: int,
    at: u64,
    window: u64,
    threshold: int,
) -> (Seq<u64>, bool) {
    let after = noted(entries, capacity, at, window);
    if after.len() >= threshold {
        (Seq::empty(), true)
    } else {
        (after, false)
    }
}

/// What is on record after events at `times`, in that order, on an empty record.
pub open spec fn counted_all(
    times: Seq<u64>,
    capacity: int,
    window: u64,
    threshold: int,
) -> Seq<u64>
    decreases times.len(),
{
    if times.len() == 0 {
        Seq::empty()
    } else {
        counted(
            counted_all(times.drop_last(), capacity, window, threshold),
            capacity,
            times.last(),
            window,
            threshold,
        ).0
    }
}

/// Fewer events than the threshold, in order and within one window, stay on record; the event
/// that makes up the threshold within the window completes the count and empties the record.
pub proof fn quick_events_complete_the_count(
    times: Seq<u64>,
    capacity: int,
    window: u64,
    threshold: int,
)
    requires
        in_order(times),
        0 < times.len() <= threshold <= capacity,
        times.last() - times[0] <= window,
    ensures
        ({
            let earlier = counted_all(times.drop_last(), capacity, window, threshold);
            counted(earlier, capacity, times.last(), window, threshold) == if times.len()
                == threshold {
                (Seq::<u64>::empty(), true)
            } else {
                (times, false)
            }
        }),
    decreases times.len(),
{
    let earlier = times.drop_last();
    let at = times.last();
    if earlier.len() > 0 {
        quick_events_complete_the_count(earlier, capacity, window, threshold);
        assert(earlier[0] >= monus(at as int, window as int));
    }
    assert(counted_all(earlier, capacity, window, threshold) == earlier);
    assert(noted(earlier, capacity, at, window) == times);
}

/// Events that lie further apart than the window never complete a count of two or more; only the
/// latest stays on record.
pub proof fn slow_events_never_complete_the_count(
    times: Seq<u64>,
    capacity: int,
    window: u64,
    threshold: int,
)
    requires
        0 < times.len(),
        0 < capacity,
        2 <= threshold,
        forall|i: int| 0 < i < times.len() ==> #[trigger] times[i] - times[i - 1] > window,
    ensures
        counted(
            counted_all(times.drop_last(), capacity, window, threshold),
            capacity,
            times.last(),
            window,
            threshold,
        ) == (seq![times.last()], false),
    decreases times.len(),
{
    let earlier = times.drop_last();
    let at = times.last();
    let oldest = monus(at as int, window as int);
    if earlier.len() > 0 {
        assert forall|i: int| 0 < i < earlier.len() implies #[trigger] earlier[i] - earlier[i - 1]
            > window by {
            assert(times[i] - times[i - 1] > window);
        }
        slow_events_never_complete_the_count(earlier, capacity, window, threshold);
        let one = seq![earlier.last()];
        assert(times[times.len() - 1] - times[times.len() - 2] > window);
        assert(recent(one.drop_first(), oldest) == Seq::<u64>::empty());
        assert(recent(one, oldest) == Seq::<u64>::empty());
    }
    assert(noted(
        counted_all(earlier, capacity, window, threshold),
        capacity,
        at,
        window,
    ) == seq![at]);
}

/// Of timestamps in order, noting an event at `at` keeps exactly those that are no older than the
/// window and that still have room besides it, in their order, and puts the event last.
pub proof fn noted_keeps_what_is_recent(entries: Seq<u64>, capacity: int, at: u64, window: u64) -> (
    dropped: int)
    requires
        0 < capacity,
        entries.len() <= capacity,
        in_order(entries),
        entries.len() > 0 ==> entries.last() <= at,
    ensures
        0 <= dropped <= entries.len(),
        noted(entries, capacity, at, window) == entries.skip(dropped).push(at),
        forall|i: int|
            0 <= i < entries.len() ==> (dropped <= i <==> at - #[trigger] entries[i] <= window && i
                > entries.len() - capacity),
{
    let oldest = monus(at as int, window as int);
    let kept = recent(entries, oldest);
    recent_keeps_a_suffix(entries, oldest);
    recent_starts_fresh(entries, oldest);
    let stale = entries.len() - kept.len();
    assert forall|i: int| 0 <= i < entries.len() implies (stale <= i <==> at - #[trigger] entries[i]
        <= window) by {
        if stale <= i {
            assert(kept[0] == entries[stale]);
            assert(entries[stale] <= entries[i]);
        }
        assert(entries[i] <= entries[entries.len() - 1]);
    }
    if kept.len() < capacity {
        assert(noted(entries, capacity, at, window) == entries.skip(stale).push(at));
        stale
    } else {
        assert(kept.drop_first() == entries.skip(1));
        1
    }
}

} // verus!
