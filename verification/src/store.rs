use vstd::prelude::*;
use crate::duration::{Duration, DEFAULT_DURATION_MILLIS};
use crate::state::{CarouselData, SUM_BOUND_MILLIS, TIME_BOUND_MILLIS};

verus! {

impl CarouselData {
    /// Runtime check of the record invariant, used to validate a record read
    /// back from disk before the carousel works on it.
    pub fn is_well_formed(&self) -> (r: bool)
        ensures
            r == self.wf(),
    {
        let n = self.layouts.len();
        if self.index_frequent >= 2 {
            return false;
        }
        if n == 0 {
            if self.index_frequent != 0 || self.index_rotational != 0 {
                return false;
            }
        } else {
            if self.index_rotational >= n {
                return false;
            }
        }
        if !self.max_duration.within_range() {
            return false;
        }
        if self.last_time < -TIME_BOUND_MILLIS || self.last_time > TIME_BOUND_MILLIS {
            return false;
        }
        if self.sum_time < -SUM_BOUND_MILLIS || self.sum_time > SUM_BOUND_MILLIS {
            return false;
        }
        if self.counter == 0 && self.sum_time != 0 {
            return false;
        }
        let mut i: usize = 0;
        while i < n
            invariant
                i <= n,
                n == self.layouts@.len(),
                forall|p: int| 0 <= p < i ==> (#[trigger] self.layouts@[p]) < n,
                forall|p: int, q: int|
                    0 <= p < q < n && p < i ==> self.layouts@[p] != self.layouts@[q],
            decreases n - i,
        {
            if self.layouts[i] >= n {
                return false;
            }
            let mut j: usize = i + 1;
            while j < n
                invariant
                    i < j <= n,
                    i < n,
                    n == self.layouts@.len(),
                    forall|q: int| i < q < j ==> self.layouts@[q] != self.layouts@[i as int],
                decreases n - j,
            {
                if self.layouts[j] == self.layouts[i] {
                    return false;
                }
                j = j + 1;
            }
            i = i + 1;
        }
        true
    }
}

/// The record assembled from the plain fields of the persisted form, with the
/// default window standing in when the stored form predates that field.
pub open spec fn assembled_record(
    last_time: i64,
    layouts: Vec<usize>,
    index_frequent: usize,
    index_rotational: usize,
    sum_time: i64,
    counter: u8,
    max_duration: Option<Duration>,
) -> CarouselData {
    CarouselData {
        last_time,
        layouts,
        index_frequent,
        index_rotational,
        sum_time,
        counter,
        max_duration: match max_duration {
            Option::Some(d) => d,
            Option::None => Duration(DEFAULT_DURATION_MILLIS),
        },
    }
}

/// What loading a persisted record yields: the assembled record when it is
/// well formed, nothing when the stored fields are corrupt.
pub open spec fn decoded_record(
    last_time: i64,
    layouts: Vec<usize>,
    index_frequent: usize,
    index_rotational: usize,
    sum_time: i64,
    counter: u8,
    max_duration: Option<Duration>,
) -> Option<CarouselData> {
    let d = assembled_record(
        last_time,
        layouts,
        index_frequent,
        index_rotational,
        sum_time,
        counter,
        max_duration,
    );
    if d.wf() {
        Option::Some(d)
    } else {
        Option::None
    }
}

impl CarouselData {
    /// Rebuilds a record from the plain fields of its persisted form,
    /// supplying the default window where the stored form has none and
    /// rejecting any combination that breaks the record invariant.
    pub fn from_record(
        last_time: i64,
        layouts: Vec<usize>,
        index_frequent: usize,
        index_rotational: usize,
        sum_time: i64,
        counter: u8,
        max_duration: Option<Duration>,
    ) -> (r: Option<CarouselData>)
        ensures
            r == decoded_record(
                last_time,
                layouts,
                index_frequent,
                index_rotational,
                sum_time,
                counter,
                max_duration,
            ),
    {
        let d = CarouselData {
            last_time,
            layouts,
            index_frequent,
            index_rotational,
            sum_time,
            counter,
            max_duration: match max_duration {
                Some(x) => x,
                None => Duration(DEFAULT_DURATION_MILLIS),
            },
        };
        if d.is_well_formed() {
            Some(d)
        } else {
            None
        }
    }
}

/// Saving and loading round-trip: the decoded form of a well-formed record's
/// own fields is exactly that record, every field included.
pub proof fn lemma_save_load_round_trip(d: CarouselData)
    requires
        d.wf(),
    ensures
        decoded_record(
            d.last_time,
            d.layouts,
            d.index_frequent,
            d.index_rotational,
            d.sum_time,
            d.counter,
            Some(d.max_duration),
        ) == Some(d),
{
}

/// A stored record that predates the configurable window loads with the
/// default window of 400 ms in its place.
pub proof fn lemma_load_defaults_duration(d: CarouselData)
    requires
        d.wf(),
        d.max_duration == Duration(DEFAULT_DURATION_MILLIS),
    ensures
        decoded_record(
            d.last_time,
            d.layouts,
            d.index_frequent,
            d.index_rotational,
            d.sum_time,
            d.counter,
            None,
        ) == Some(d),
{
}

} // verus!
