use vstd::prelude::*;
use crate::duration::{Duration, valid_duration, DEFAULT_DURATION_MILLIS};
use crate::error::CarouselError;

verus! {

/// Largest absolute timestamp (milliseconds since the Unix epoch) a record
/// accepts; far beyond any clock this program will see.
pub const TIME_BOUND_MILLIS: i64 = 1_000_000_000_000_000;

/// Largest absolute accumulated gap a record accepts: two timestamps within
/// the bound above can be at most this far apart.
pub const SUM_BOUND_MILLIS: i64 = 2_000_000_000_000_000;

/// The persisted carousel record: a most-recently-used ordering of the host's
/// layouts together with the timing of the press streak in progress.
///
/// All times are whole milliseconds; `counter` caps at its largest value
/// rather than wrapping, so a very long streak never re-enters the
/// isolated-press classification.
#[derive(Clone, Debug)]
pub struct CarouselData {
    /// Timestamp of the previous invocation, milliseconds since the epoch.
    pub last_time: i64,
    /// Distinct layout indices `0..n` in most-recently-used order; positions
    /// 0 and 1 are the two toggling slots.
    pub layouts: Vec<usize>,
    /// Position in `layouts` of the currently toggled slot (0 or 1).
    pub index_frequent: usize,
    /// Position in `layouts` used when cycling past the two recent layouts.
    pub index_rotational: usize,
    /// Gap accumulated since the current streak began, reset on every
    /// multi-press step so it measures the single preceding gap.
    pub sum_time: i64,
    /// Number of consecutive presses in the current streak (saturating).
    pub counter: u8,
    /// The configured double-press window.
    pub max_duration: Duration,
}

impl CarouselData {
    /// Well-formedness: `layouts` is a permutation of `0..n`, both pointers
    /// index into it (the active one always sits in a toggling slot), the
    /// window is a value the carousel would accept, and the timing fields are
    /// within bounds that keep every gap computation exact.
    pub open spec fn wf(self) -> bool {
        &&& forall|i: int|
            0 <= i < self.layouts@.len() ==> (#[trigger] self.layouts@[i]) < self.layouts@.len()
        &&& forall|i: int, j: int|
            0 <= i < j < self.layouts@.len() ==> self.layouts@[i] != self.layouts@[j]
        &&& self.index_frequent < 2
        &&& (self.layouts@.len() == 0 ==> self.index_frequent == 0 && self.index_rotational == 0)
        &&& (self.layouts@.len() > 0 ==> self.index_rotational < self.layouts@.len())
        &&& valid_duration(self.max_duration.0 as int)
        &&& -TIME_BOUND_MILLIS <= self.last_time <= TIME_BOUND_MILLIS
        &&& -SUM_BOUND_MILLIS <= self.sum_time <= SUM_BOUND_MILLIS
        &&& (self.counter == 0 ==> self.sum_time == 0)
    }
}

/// The streak counter incremented by one, stopping at its largest value.
pub open spec fn sat_inc(c: u8) -> u8 {
    if c == 255 {
        255u8
    } else {
        (c + 1) as u8
    }
}

/// The accumulated gap that a call at `call_time` tests against the window:
/// what was carried over plus the gap since the previous invocation.
pub open spec fn streak_sum(pre: CarouselData, call_time: int) -> int {
    pre.sum_time + call_time - pre.last_time
}

/// Whether a call at `call_time` continues the streak recorded in `pre`.
pub open spec fn continues_streak(pre: CarouselData, call_time: int) -> bool {
    streak_sum(pre, call_time) < pre.max_duration.0
}

/// The streak counter after the timing update of a call at `call_time`.
pub open spec fn counter_after(pre: CarouselData, call_time: int) -> u8 {
    if continues_streak(pre, call_time) {
        sat_inc(pre.counter)
    } else {
        1u8
    }
}

/// The accumulated gap after the timing update of a call at `call_time`: it
/// survives only on the very first press recorded by a fresh record; every
/// later press resets it so each streak step is measured against the
/// immediately preceding call.
pub open spec fn sum_after(pre: CarouselData, call_time: int) -> int {
    if continues_streak(pre, call_time) && pre.counter == 0 {
        streak_sum(pre, call_time)
    } else {
        0
    }
}

/// The active slot after the rotation decided by streak counter `counter`:
/// toggled between 0 and 1 for an isolated press and for the second press of
/// a streak, untouched from the third press on.
pub open spec fn frequent_after(counter: u8, frequent: int) -> int {
    if counter <= 2 {
        (frequent + 1) % 2
    } else {
        frequent
    }
}

/// The candidate slot after the rotation decided by `counter` over `len`
/// layouts: untouched by an isolated press, restarted at the third entry on
/// the second press of a streak, stepped forward on every later press.
pub open spec fn rotational_after(counter: u8, rotational: int, len: int) -> int
    recommends
        len >= 1,
{
    if counter <= 1 {
        rotational
    } else if counter == 2 {
        2int % len
    } else {
        (rotational + 1) % len
    }
}

/// `s` with the entries at `i` and `j` exchanged.
pub open spec fn swapped(s: Seq<usize>, i: int, j: int) -> Seq<usize>
    recommends
        0 <= i < s.len(),
        0 <= j < s.len(),
{
    s.update(i, s[j]).update(j, s[i])
}

/// The layout order after the rotation decided by `counter`: untouched by an
/// isolated press; otherwise the new active and candidate slots exchange
/// their entries, bringing the chosen layout into the active slot.
pub open spec fn layouts_after(counter: u8, s: Seq<usize>, frequent: int, rotational: int) -> Seq<
    usize,
> {
    if counter <= 1 {
        s
    } else {
        swapped(
            s,
            frequent_after(counter, frequent),
            rotational_after(counter, rotational, s.len() as int),
        )
    }
}

/// Exchanging two entries of a duplicate-free sequence over `0..len` keeps
/// it duplicate-free over `0..len`.
proof fn lemma_swap_preserves_perm(s: Seq<usize>, i: int, j: int)
    requires
        0 <= i < s.len(),
        0 <= j < s.len(),
        forall|k: int| 0 <= k < s.len() ==> (#[trigger] s[k]) < s.len(),
        forall|p: int, q: int| 0 <= p < q < s.len() ==> s[p] != s[q],
    ensures
        swapped(s, i, j).len() == s.len(),
        forall|k: int| 0 <= k < s.len() ==> (#[trigger] swapped(s, i, j)[k]) < s.len(),
        forall|p: int, q: int| 0 <= p < q < s.len() ==> swapped(s, i, j)[p] != swapped(s, i, j)[q],
{
    let t = swapped(s, i, j);
    assert forall|p: int, q: int| 0 <= p < q < s.len() implies t[p] != t[q] by {
        let sp = if p == j { i } else if p == i { j } else { p };
        let sq = if q == j { i } else if q == i { j } else { q };
        assert(t[p] == s[sp]);
        assert(t[q] == s[sq]);
        assert(sp != sq);
        if sp < sq {
            assert(s[sp] != s[sq]);
        } else {
            assert(s[sq] != s[sp]);
        }
    }
}

impl CarouselData {
    /// A fresh record for `layout_count` layouts created at time `now`: the
    /// identity ordering, both pointers on the first slot, no streak, and the
    /// default window.
    pub fn create_default(layout_count: usize, now: i64) -> (r: Self)
        requires
            -TIME_BOUND_MILLIS <= now <= TIME_BOUND_MILLIS,
        ensures
            r.wf(),
            r.last_time == now,
            r.layouts@.len() == layout_count,
            forall|i: int| 0 <= i < layout_count ==> #[trigger] r.layouts@[i] == i,
            r.index_frequent == 0,
            r.index_rotational == 0,
            r.sum_time == 0,
            r.counter == 0,
            r.max_duration.0 == DEFAULT_DURATION_MILLIS,
    {
        let mut layouts: Vec<usize> = Vec::new();
        let mut i: usize = 0;
        while i < layout_count
            invariant
                i <= layout_count,
                layouts@.len() == i,
                forall|k: int| 0 <= k < i ==> #[trigger] layouts@[k] == k,
            decreases layout_count - i,
        {
            layouts.push(i);
            i = i + 1;
        }
        CarouselData {
            last_time: now,
            layouts,
            index_frequent: 0,
            index_rotational: 0,
            sum_time: 0,
            counter: 0,
            max_duration: Duration::default(),
        }
    }

    /// The timing update run once per switch invocation, before the rotation
    /// decision: folds the gap since the previous call into the streak,
    /// classifies this press (`counter` becomes 1 for an isolated press or a
    /// streak's first press, grows otherwise), and re-arms the gap holder.
    pub fn compute_time_and_count(&mut self, call_time: i64)
        requires
            old(self).wf(),
            -TIME_BOUND_MILLIS <= call_time <= TIME_BOUND_MILLIS,
        ensures
            final(self).wf(),
            final(self).last_time == call_time,
            final(self).counter == counter_after(*old(self), call_time as int),
            final(self).sum_time == sum_after(*old(self), call_time as int),
            final(self).layouts == old(self).layouts,
            final(self).index_frequent == old(self).index_frequent,
            final(self).index_rotational == old(self).index_rotational,
            final(self).max_duration == old(self).max_duration,
    {
        let diff = call_time - self.last_time;
        self.last_time = call_time;

        self.sum_time = self.sum_time + diff;
        if self.max_duration.satisfies(self.sum_time) {
            if self.counter < 255 {
                self.counter = self.counter + 1;
            }
        } else {
            self.sum_time = 0;
            self.counter = 1;
        }

        if self.counter > 1 {
            self.sum_time = 0;
        }
    }

    /// The rotation decision run right after the timing update: an isolated
    /// press toggles the active slot; the second press of a streak toggles it
    /// once more and restarts the candidate at the third entry; later presses
    /// step the candidate forward; every multi-press step then exchanges the
    /// active and candidate entries of the ordering.
    pub fn handle_switch(&mut self)
        requires
            old(self).wf(),
            old(self).layouts@.len() >= 2,
        ensures
            final(self).wf(),
            final(self).index_frequent == frequent_after(
                old(self).counter,
                old(self).index_frequent as int,
            ),
            final(self).index_rotational == rotational_after(
                old(self).counter,
                old(self).index_rotational as int,
                old(self).layouts@.len() as int,
            ),
            final(self).layouts@ == layouts_after(
                old(self).counter,
                old(self).layouts@,
                old(self).index_frequent as int,
                old(self).index_rotational as int,
            ),
            final(self).last_time == old(self).last_time,
            final(self).sum_time == old(self).sum_time,
            final(self).counter == old(self).counter,
            final(self).max_duration == old(self).max_duration,
    {
        let n = self.layouts.len();
        if self.counter <= 1 {
            self.index_frequent = (self.index_frequent + 1) % 2;
        } else {
            if self.counter > 2 {
                self.index_rotational = self.index_rotational + 1;
            } else {
                self.index_frequent = (self.index_frequent + 1) % 2;
                self.index_rotational = 2;
            }

            self.index_rotational = self.index_rotational % n;

            let i = self.index_frequent;
            let j = self.index_rotational;
            let a = self.layouts[i];
            let b = self.layouts[j];
            self.layouts[i] = b;
            self.layouts[j] = a;

            proof {
                lemma_swap_preserves_perm(old(self).layouts@, i as int, j as int);
            }
        }
    }

    /// Installs a new double-press window if it lies in the accepted range;
    /// an out-of-range value is rejected with the validation error and the
    /// record is left exactly as it was.
    pub fn set_max_duration(&mut self, new_duration: Duration) -> (r: Result<(), CarouselError>)
        requires
            old(self).wf(),
        ensures
            final(self).wf(),
            valid_duration(new_duration.0 as int) ==> ({
                &&& r is Ok
                &&& final(self).max_duration == new_duration
                &&& final(self).last_time == old(self).last_time
                &&& final(self).layouts == old(self).layouts
                &&& final(self).index_frequent == old(self).index_frequent
                &&& final(self).index_rotational == old(self).index_rotational
                &&& final(self).sum_time == old(self).sum_time
                &&& final(self).counter == old(self).counter
            }),
            !valid_duration(new_duration.0 as int) ==> ({
                &&& r == Err::<(), CarouselError>(
                    CarouselError::IncorrectMaxDuration { max_duration: new_duration },
                )
                &&& *final(self) == *old(self)
            }),
    {
        if !new_duration.within_range() {
            return Err(CarouselError::IncorrectMaxDuration { max_duration: new_duration });
        }
        self.max_duration = new_duration;
        Ok(())
    }
}

/// One whole switch invocation over an already loaded record: with fewer than
/// two layouts nothing at all happens and no target is produced; otherwise
/// the timing update and the rotation run and the layout now in the active
/// slot is the one to request from the compositor.
pub fn handle_layout_switch(data: &mut CarouselData, call_time: i64) -> (target: Option<usize>)
    requires
        old(data).wf(),
        -TIME_BOUND_MILLIS <= call_time <= TIME_BOUND_MILLIS,
    ensures
        final(data).wf(),
        old(data).layouts@.len() < 2 ==> target is None && *final(data) == *old(data),
        old(data).layouts@.len() >= 2 ==> ({
            let c = counter_after(*old(data), call_time as int);
            &&& final(data).last_time == call_time
            &&& final(data).counter == c
            &&& final(data).sum_time == sum_after(*old(data), call_time as int)
            &&& final(data).max_duration == old(data).max_duration
            &&& final(data).index_frequent == frequent_after(c, old(data).index_frequent as int)
            &&& final(data).index_rotational == rotational_after(
                c,
                old(data).index_rotational as int,
                old(data).layouts@.len() as int,
            )
            &&& final(data).layouts@ == layouts_after(
                c,
                old(data).layouts@,
                old(data).index_frequent as int,
                old(data).index_rotational as int,
            )
            &&& target == Some(final(data).layouts@[final(data).index_frequent as int])
        }),
{
    if data.layouts.len() < 2 {
        return None;
    }

    data.compute_time_and_count(call_time);
    data.handle_switch();

    Some(data.layouts[data.index_frequent])
}

/// A press that falls outside the window of the previous one starts a new
/// streak of one, whatever came before; a press within the window grows the
/// running streak, and from the second press on the gap holder is re-armed so
/// the next press is measured against this one alone.
pub proof fn lemma_press_classification(pre: CarouselData, call_time: int)
    ensures
        !continues_streak(pre, call_time) ==> counter_after(pre, call_time) == 1
            && sum_after(pre, call_time) == 0,
        continues_streak(pre, call_time) && pre.counter >= 1 ==> counter_after(pre, call_time)
            == sat_inc(pre.counter) && sum_after(pre, call_time) == 0,
{
}

/// An isolated press (or the first press of what may become a streak) only
/// toggles the active slot between 0 and 1: the layout ordering and the
/// candidate slot are untouched.
pub proof fn lemma_isolated_press(counter: u8, s: Seq<usize>, frequent: int, rotational: int)
    requires
        counter <= 1,
    ensures
        layouts_after(counter, s, frequent, rotational) == s,
        frequent_after(counter, frequent) == (frequent + 1) % 2,
        rotational_after(counter, rotational, s.len() as int) == rotational,
{
}

/// The second press of a streak toggles the active slot once more (undoing
/// the first press's toggle), restarts the candidate at the third entry, and
/// exchanges the entries at the two slots.
pub proof fn lemma_second_press(counter: u8, s: Seq<usize>, frequent: int, rotational: int)
    requires
        counter == 2,
        s.len() >= 2,
    ensures
        frequent_after(counter, frequent) == (frequent + 1) % 2,
        rotational_after(counter, rotational, s.len() as int) == 2int % (s.len() as int),
        layouts_after(counter, s, frequent, rotational) == swapped(
            s,
            (frequent + 1) % 2,
            2int % (s.len() as int),
        ),
{
}

/// Every press of a streak after the second leaves the active slot where it
/// is, steps the candidate forward by one modulo the number of layouts, and
/// exchanges the entries at the two slots — cycling through the layouts
/// beyond the two most recent before repeating.
pub proof fn lemma_rapid_press(counter: u8, s: Seq<usize>, frequent: int, rotational: int)
    requires
        counter > 2,
        s.len() >= 2,
    ensures
        frequent_after(counter, frequent) == frequent,
        rotational_after(counter, rotational, s.len() as int) == (rotational + 1) % (
        s.len() as int),
        layouts_after(counter, s, frequent, rotational) == swapped(
            s,
            frequent,
            (rotational + 1) % (s.len() as int),
        ),
{
}

} // verus!
