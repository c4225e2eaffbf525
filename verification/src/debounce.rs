//! Debounced edge confirmation for a noisy input line.
//!
//! A mechanical contact does not change level cleanly: around a physical
//! press or release the line flips back and forth for a while (contact
//! bounce).  The debouncer repeats one cycle until it sees a stable edge:
//! sample the level, suspend until the line reaches the target level,
//! wait out a fixed settle window, then resample.  The edge is confirmed
//! only when the two samples differ and the second equals the target
//! level; otherwise the cycle restarts.  The cycle has no retry bound —
//! it ends only on a genuinely stable edge.
//!
//! This module carries the decision logic over a line trace given as
//! plain values: the starting level and the strictly ascending times at
//! which the line toggles.  The hardware loop outside the crate performs
//! the actual suspensions and feeds the samples in the same order.

use vstd::prelude::*;

verus! {

/// The two levels of a sampled input line.
#[derive(Debug, Clone, Copy, PartialEq, Eq, Structural)]
pub enum RawLevel {
    /// The line rests high (button released, with a pull-up).
    High,
    /// The line is pulled low (button pressed, with a pull-up).
    Low,
}

/// The opposite line level.
pub open spec fn spec_toggled(level: RawLevel) -> RawLevel {
    match level {
        RawLevel::High => RawLevel::Low,
        RawLevel::Low => RawLevel::High,
    }
}

/// The opposite line level.
pub fn toggled(level: RawLevel) -> (r: RawLevel)
    ensures
        r == spec_toggled(level),
{
    match level {
        RawLevel::High => RawLevel::Low,
        RawLevel::Low => RawLevel::High,
    }
}

/// The level a line rests at after toggling `flips` times from `start`.
pub open spec fn level_after(start: RawLevel, flips: nat) -> RawLevel {
    if flips % 2 == 0 {
        start
    } else {
        spec_toggled(start)
    }
}

/// How many of the ascending toggle times in `flips` are at or before `t`.
pub open spec fn count_at_or_before(flips: Seq<u64>, t: u64) -> nat
    decreases flips.len(),
{
    if flips.len() == 0 {
        0
    } else if flips.last() <= t {
        flips.len()
    } else {
        count_at_or_before(flips.drop_last(), t)
    }
}

/// The level of a line at time `t`, for a line that starts at `start` and
/// toggles at each time in the ascending sequence `flips`.
pub open spec fn level_at(start: RawLevel, flips: Seq<u64>, t: u64) -> RawLevel {
    level_after(start, count_at_or_before(flips, t))
}

/// The toggle times are strictly ascending: a line cannot flip twice at
/// the same instant.
pub open spec fn strictly_ascending(flips: Seq<u64>) -> bool {
    forall|i: int, j: int| 0 <= i < j < flips.len() ==> #[trigger] flips[i] < #[trigger] flips[j]
}

/// Every gap between consecutive toggles stays below `settle`.
pub open spec fn gaps_below(flips: Seq<u64>, settle: u64) -> bool {
    forall|i: int| 0 < i < flips.len() ==> #[trigger] flips[i] - flips[i - 1] < settle
}

/// A bounce burst toward `target`: the line rests opposite the target,
/// then toggles an odd number of times — so it ends at the target — with
/// every gap below the settle window, all after the wait begins.
pub open spec fn bounce_burst(
    start: RawLevel,
    flips: Seq<u64>,
    wait_from: u64,
    target: RawLevel,
    settle: u64,
) -> bool {
    &&& flips.len() > 0
    &&& flips.len() % 2 == 1
    &&& start != target
    &&& wait_from < flips[0]
    &&& gaps_below(flips, settle)
}

/// For an ascending trace, the toggles counted at or before `t` are
/// exactly those whose index lies below the count.
proof fn lemma_count_bounds(flips: Seq<u64>, t: u64)
    requires
        strictly_ascending(flips),
    ensures
        count_at_or_before(flips, t) <= flips.len(),
        forall|i: int| 0 <= i < count_at_or_before(flips, t) ==> #[trigger] flips[i] <= t,
        forall|i: int|
            count_at_or_before(flips, t) <= i < flips.len() ==> #[trigger] flips[i] > t,
    decreases flips.len(),
{
    if flips.len() == 0 {
    } else if flips.last() <= t {
        assert forall|i: int| 0 <= i < count_at_or_before(flips, t) implies #[trigger] flips[i]
            <= t by {
            if i < flips.len() - 1 {
                assert(flips[i] < flips[flips.len() - 1]);
            }
        }
    } else {
        let shorter = flips.drop_last();
        assert forall|i: int, j: int| 0 <= i < j < shorter.len() implies #[trigger] shorter[i]
            < #[trigger] shorter[j] by {
            assert(flips[i] < flips[j]);
        }
        lemma_count_bounds(shorter, t);
        assert forall|i: int| 0 <= i < count_at_or_before(flips, t) implies #[trigger] flips[i]
            <= t by {
            assert(shorter[i] <= t);
        }
        assert forall|i: int|
            count_at_or_before(flips, t) <= i < flips.len() implies #[trigger] flips[i] > t by {
            if i < flips.len() - 1 {
                assert(shorter[i] > t);
            }
        }
    }
}

/// The count at or before `t` is pinned by any index that splits the
/// ascending trace into times at or before `t` and times after it.
proof fn lemma_count_characterization(flips: Seq<u64>, t: u64, k: int)
    requires
        strictly_ascending(flips),
        0 <= k <= flips.len(),
        forall|i: int| 0 <= i < k ==> #[trigger] flips[i] <= t,
        forall|i: int| k <= i < flips.len() ==> #[trigger] flips[i] > t,
    ensures
        count_at_or_before(flips, t) == k,
{
    lemma_count_bounds(flips, t);
    let c = count_at_or_before(flips, t) as int;
    if c < k {
        assert(flips[c] <= t);
        assert(flips[c] > t);
    }
    if c > k {
        assert(flips[k] <= t);
        assert(flips[k] > t);
    }
}

/// The confirmation test applied after each settle window: the edge is
/// accepted only when the sample before the edge wait and the sample
/// after the settle window differ, and the later one is the target level.
pub fn debounce_confirmed(
    first_sample: RawLevel,
    second_sample: RawLevel,
    target: RawLevel,
) -> (confirmed: bool)
    ensures
        confirmed == (first_sample != second_sample && second_sample == target),
{
    first_sample != second_sample && second_sample == target
}

/// Run one debounce wait toward `target` against a recorded line trace.
///
/// The line starts at `start` and toggles at each time in `flips`.  From
/// `wait_from` on, the debounce cycle repeats: sample, suspend until the
/// line reaches the target level, wait `settle`, resample, and confirm
/// only a changed sample that ends at the target.  The result is the time
/// at which an edge is confirmed, or `None` where the debouncer would
/// keep waiting forever because the recorded trace never yields a
/// confirmable edge.
///
/// Bounce rejection: a bounce burst toward the target — however many
/// times the contact flips — yields exactly one confirmed edge: the run
/// returns one confirmation time, no later than one settle window past
/// the last flip.  A burst so dense that it fits inside the first settle
/// window is confirmed exactly one settle window after its first flip,
/// and a trace with no toggles left at `wait_from` confirms nothing.
pub fn debounce_run(
    start: RawLevel,
    flips: &Vec<u64>,
    wait_from: u64,
    target: RawLevel,
    settle: u64,
) -> (confirmed_at: Option<u64>)
    requires
        strictly_ascending(flips@),
        settle >= 1,
        flips@.len() > 0 ==> flips@.last() + settle <= u64::MAX,
    ensures
        confirmed_at matches Some(c) ==> {
            &&& level_at(start, flips@, c) == target
            &&& wait_from <= c
            &&& count_at_or_before(flips@, wait_from) < count_at_or_before(flips@, c)
        },
        count_at_or_before(flips@, wait_from) == flips@.len() ==> confirmed_at is None,
        bounce_burst(start, flips@, wait_from, target, settle) ==> (confirmed_at matches Some(c)
            && c <= flips@.last() + settle),
        bounce_burst(start, flips@, wait_from, target, settle) && (forall|i: int|
            0 <= i < flips@.len() ==> #[trigger] flips@[i] <= flips@[0] + settle)
            ==> confirmed_at == Some((flips@[0] + settle) as u64),
{
    let ghost burst = bounce_burst(start, flips@, wait_from, target, settle);
    let ghost dense = burst && (forall|i: int|
        0 <= i < flips@.len() ==> #[trigger] flips@[i] <= flips@[0] + settle);
    let n = flips.len();

    // Advance to the line state at the start of the wait.
    let mut idx: usize = 0;
    let mut level = start;
    while idx < n && flips[idx] <= wait_from
        invariant
            n == flips@.len(),
            idx <= n,
            forall|i: int| 0 <= i < idx ==> #[trigger] flips@[i] <= wait_from,
            level == level_after(start, idx as nat),
        decreases n - idx,
    {
        level = toggled(level);
        idx = idx + 1;
    }
    proof {
        assert forall|i: int| idx <= i < n implies #[trigger] flips@[i] > wait_from by {
            if i > idx {
                assert(flips@[idx as int] < flips@[i]);
            }
        }
        lemma_count_characterization(flips@, wait_from, idx as int);
        if burst {
            assert(flips@[0] > wait_from);
            assert(idx == 0);
        }
    }

    let mut t = wait_from;
    loop
        invariant
            n == flips@.len(),
            idx <= n,
            strictly_ascending(flips@),
            settle >= 1,
            n > 0 ==> flips@.last() + settle <= u64::MAX,
            idx == count_at_or_before(flips@, t),
            level == level_after(start, idx as nat),
            idx < n ==> t < flips@[idx as int],
            wait_from <= t,
            count_at_or_before(flips@, wait_from) <= idx,
            burst == bounce_burst(start, flips@, wait_from, target, settle),
            dense == (burst && (forall|i: int|
                0 <= i < flips@.len() ==> #[trigger] flips@[i] <= flips@[0] + settle)),
            burst ==> level == start && idx % 2 == 0,
            dense ==> idx == 0,
        decreases n - idx, (if idx < n { flips@[idx as int] - t } else { 0 }),
    {
        if idx == n {
            // No toggles remain: the line never reaches a fresh edge, so
            // the debouncer would wait forever.
            proof {
                if burst {
                    // a burst ends at the target after an odd number of
                    // toggles, so it cannot have been consumed without a
                    // confirmation
                    assert(idx % 2 == 0 && n % 2 == 1);
                    assert(false);
                }
            }
            return None;
        }
        let first_sample = level;

        // Suspend until the line is at the target level; with the line
        // already there the wait returns at once, otherwise it wakes on
        // the next toggle, which moves the two-level line to the target.
        let edge_time: u64;
        let mut k: usize;
        let mut window_level: RawLevel;
        if first_sample == target {
            edge_time = t;
            k = idx;
            window_level = level;
        } else {
            edge_time = flips[idx];
            k = idx + 1;
            window_level = toggled(level);
            proof {
                lemma_count_bounds(flips@, t);
                assert forall|i: int| 0 <= i < k implies #[trigger] flips@[i] <= edge_time by {
                    if i < idx {
                        assert(flips@[i] <= t);
                    }
                }
                assert forall|i: int| k <= i < n implies #[trigger] flips@[i] > edge_time by {
                    assert(flips@[idx as int] < flips@[i]);
                }
                lemma_count_characterization(flips@, edge_time, k as int);
            }
        }
        proof {
            assert(idx < n);
            if (idx as int) < n - 1 {
                assert(flips@[idx as int] < flips@[n - 1]);
            }
            assert(edge_time <= flips@.last());
        }

        // Wait out the settle window, then resample.
        let resample_time = edge_time + settle;
        let ghost k0 = k as int;
        while k < n && flips[k] <= resample_time
            invariant
                n == flips@.len(),
                k0 <= k <= n,
                forall|i: int| k0 <= i < k ==> #[trigger] flips@[i] <= resample_time,
                window_level == level_after(start, k as nat),
            decreases n - k,
        {
            window_level = toggled(window_level);
            k = k + 1;
        }
        proof {
            lemma_count_bounds(flips@, edge_time);
            assert forall|i: int| 0 <= i < k implies #[trigger] flips@[i] <= resample_time by {
                if i < k0 {
                    assert(flips@[i] <= edge_time);
                }
            }
            assert forall|i: int| k <= i < n implies #[trigger] flips@[i] > resample_time by {
                if i > k {
                    assert(flips@[k as int] < flips@[i]);
                }
            }
            lemma_count_characterization(flips@, resample_time, k as int);
        }
        let second_sample = window_level;

        if debounce_confirmed(first_sample, second_sample, target) {
            proof {
                assert(level_at(start, flips@, resample_time) == target);
                if dense {
                    assert(idx == 0 && edge_time == flips@[0]);
                }
            }
            return Some(resample_time);
        }

        proof {
            if burst {
                // within a burst the first sample is the resting level, so
                // an unconfirmed window must end back at that level
                assert(first_sample == start && first_sample != target);
                assert(second_sample == first_sample);
                assert(level_after(start, k as nat) == start);
                assert(k % 2 == 0);
            }
            if dense {
                // a dense burst is consumed whole by its first window and
                // always confirms, so this retry cannot be reached
                assert forall|i: int| 0 <= i < n implies #[trigger] flips@[i]
                    <= resample_time by {
                    assert(flips@[i] <= flips@[0] + settle);
                }
                assert(k == n);
                assert(false);
            }
        }
        t = resample_time;
        idx = k;
        level = window_level;
    }
}

} // verus!
