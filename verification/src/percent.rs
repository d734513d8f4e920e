//! Exact percentages.
//!
//! Rates such as packet loss are kept as a fraction of two counts, so that
//! every statement about them is a statement about integers. A consumer that
//! wants a decimal number divides `part` by `whole` and multiplies by one
//! hundred.

use vstd::prelude::*;

verus! {

/// The percentage `part / whole × 100`.
#[derive(Clone, Copy, Debug, PartialEq, Eq, Structural)]
pub struct Percent {
    pub part: u64,
    pub whole: u64,
}

impl Percent {
    /// A percentage is well formed when its denominator is positive.
    pub open spec fn wf(self) -> bool {
        self.whole > 0
    }

    /// Whether this percentage is exactly `percent` per cent.
    pub open spec fn is_exactly(self, percent: int) -> bool {
        self.whole > 0 && 100 * self.part == percent * self.whole
    }

    /// Nought per cent.
    pub fn zero() -> (p: Percent)
        ensures
            p == (Percent { part: 0, whole: 1 }),
            p.is_exactly(0),
    {
        Percent { part: 0, whole: 1 }
    }

    /// One hundred per cent.
    pub fn full() -> (p: Percent)
        ensures
            p == (Percent { part: 1, whole: 1 }),
            p.is_exactly(100),
    {
        Percent { part: 1, whole: 1 }
    }
}

} // verus!
