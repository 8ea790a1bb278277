use vstd::prelude::*;

verus! {

/// Half-open time interval `[interval_start, interval_end)` of integral time points.
#[derive(Copy, Clone, PartialEq, Eq, Structural, Default, Debug)]
pub struct TimeInterval {
    pub interval_start: usize,
    pub interval_end: usize,
}

/// A value that covers a time interval.
pub trait TemporalBounded {
    fn temporal_bounds(&self) -> TimeInterval;
}

} // verus!
