//! Ranges of distances, by their order keys.
use vstd::prelude::*;

use crate::distance::INFINITY_KEY;

verus! {

/// The range of distances from `min` to `max`, both given as order keys.
/// `min <= max` is expected but not required: `empty` has them crossed.
#[derive(Clone, Copy, Debug, PartialEq, Eq, Structural)]
pub struct Interval {
    pub min: i64,
    pub max: i64,
}

impl Interval {
    /// `x` lies in the range, ends included.
    pub open spec fn holds(self, x: int) -> bool {
        self.min <= x <= self.max
    }

    /// `x` lies strictly inside the range.
    pub open spec fn holds_inside(self, x: int) -> bool {
        self.min < x < self.max
    }

    pub fn new(min: i64, max: i64) -> (r: Self)
        ensures
            r.min == min,
            r.max == max,
    {
        Interval { min, max }
    }

    /// From positive to negative infinity: it holds no key.
    pub fn empty() -> (r: Self)
        ensures
            r.min == INFINITY_KEY,
            r.max == -INFINITY_KEY,
            forall|x: int| !r.holds(x),
    {
        Interval { min: INFINITY_KEY, max: -INFINITY_KEY }
    }

    /// From negative to positive infinity: it holds every key of a double
    /// that is not NaN.
    pub fn universe() -> (r: Self)
        ensures
            r.min == -INFINITY_KEY,
            r.max == INFINITY_KEY,
            forall|x: int| -INFINITY_KEY <= x <= INFINITY_KEY ==> r.holds(x),
    {
        Interval { min: -INFINITY_KEY, max: INFINITY_KEY }
    }

    pub fn contains(&self, x: i64) -> (r: bool)
        ensures
            r == self.holds(x as int),
    {
        self.min <= x && x <= self.max
    }

    pub fn surrounds(&self, x: i64) -> (r: bool)
        ensures
            r == self.holds_inside(x as int),
    {
        self.min < x && x < self.max
    }

    /// `x` saturated into the range.
    pub fn clamp(&self, x: i64) -> (r: i64)
        ensures
            x < self.min ==> r == self.min,
            self.holds(x as int) ==> r == x,
            self.min <= x && self.max < x ==> r == self.max,
    {
        if x < self.min {
            self.min
        } else if x > self.max {
            self.max
        } else {
            x
        }
    }
}

} // verus!
