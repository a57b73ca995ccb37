use vstd::prelude::*;

verus! {

/// Smallest accepted double-press window, in milliseconds.
pub const MIN_DURATION_MILLIS: u64 = 200;

/// Exclusive upper bound for the double-press window, in milliseconds.
pub const MAX_DURATION_MILLIS: u64 = 1000;

/// Window used when no other value was ever configured, in milliseconds.
pub const DEFAULT_DURATION_MILLIS: u64 = 400;

/// The configurable "double-press" time window: the largest gap, in whole
/// milliseconds, that still makes two consecutive invocations part of one
/// press streak.
#[derive(Clone, Copy, Debug, PartialEq, Eq, Structural)]
pub struct Duration(pub u64);

/// A user-supplied window is accepted only in the closed-open range
/// [MIN_DURATION_MILLIS, MAX_DURATION_MILLIS).
pub open spec fn valid_duration(millis: int) -> bool {
    MIN_DURATION_MILLIS <= millis < MAX_DURATION_MILLIS
}

impl Duration {
    /// Whether an elapsed gap (milliseconds, possibly negative when the clock
    /// stepped backwards) still lies inside this window.
    pub fn satisfies(&self, time: i64) -> (r: bool)
        requires
            self.0 < MAX_DURATION_MILLIS,
        ensures
            r <==> time < self.0,
    {
        time < self.0 as i64
    }

    /// Whether this window may be stored as a user-supplied value.
    pub fn within_range(&self) -> (r: bool)
        ensures
            r <==> valid_duration(self.0 as int),
    {
        MIN_DURATION_MILLIS <= self.0 && self.0 < MAX_DURATION_MILLIS
    }
}

impl Default for Duration {
    /// The default window of 400 ms (0.4 s).
    fn default() -> (r: Self)
        ensures
            r.0 == DEFAULT_DURATION_MILLIS,
    {
        Duration(DEFAULT_DURATION_MILLIS)
    }
}

} // verus!
