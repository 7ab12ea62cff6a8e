use vstd::prelude::*;

verus! {

/// A handle to a counter: the position of its storage in the recorder that
/// issued it, or nothing for a handle that discards every update.
#[derive(Clone, Copy, Debug, PartialEq, Eq, Structural)]
pub struct Counter {
    pub slot: Option<usize>,
}

/// A handle to a gauge, laid out as a `Counter`.
#[derive(Clone, Copy, Debug, PartialEq, Eq, Structural)]
pub struct Gauge {
    pub slot: Option<usize>,
}

/// A handle to a histogram, laid out as a `Counter`.
#[derive(Clone, Copy, Debug, PartialEq, Eq, Structural)]
pub struct Histogram {
    pub slot: Option<usize>,
}

impl Counter {
    /// A handle that discards every update.
    pub fn noop() -> (r: Counter)
        ensures
            r.slot is None,
    {
        Counter { slot: None }
    }
}

impl Gauge {
    /// A handle that discards every update.
    pub fn noop() -> (r: Gauge)
        ensures
            r.slot is None,
    {
        Gauge { slot: None }
    }
}

impl Histogram {
    /// A handle that discards every update.
    pub fn noop() -> (r: Histogram)
        ensures
            r.slot is None,
    {
        Histogram { slot: None }
    }
}

} // verus!
