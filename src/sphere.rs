//! Which root of a ray-sphere quadratic a ray meets.
use vstd::prelude::*;

use crate::interval::Interval;

verus! {

/// The two real roots of a ray-sphere quadratic, as order keys, smaller first.
#[derive(Clone, Copy, Debug, PartialEq, Eq, Structural)]
pub struct Roots {
    pub near: i64,
    pub far: i64,
}

impl Roots {
    pub open spec fn wf(self) -> bool {
        self.near <= self.far
    }

    /// The roots `a` and `b`, in either order.
    pub fn new(a: i64, b: i64) -> (r: Self)
        ensures
            r.wf(),
            (r.near == a && r.far == b) || (r.near == b && r.far == a),
    {
        if a <= b {
            Roots { near: a, far: b }
        } else {
            Roots { near: b, far: a }
        }
    }
}

/// Where a ray with these roots (none when the discriminant is negative)
/// meets the sphere within `ray_t`: the smaller root if `ray_t` surrounds it,
/// else the larger one if `ray_t` surrounds that.
pub open spec fn root_in(roots: Option<Roots>, ray_t: Interval) -> Option<int> {
    match roots {
        None => None,
        Some(r) => if ray_t.holds_inside(r.near as int) {
            Some(r.near as int)
        } else if ray_t.holds_inside(r.far as int) {
            Some(r.far as int)
        } else {
            None
        },
    }
}

/// The distance at which a ray with these roots meets the sphere within
/// `ray_t`, or `None` when it does not.
pub fn nearest_root(roots: Option<Roots>, ray_t: &Interval) -> (t: Option<i64>)
    ensures
        roots is None ==> t is None,
        roots matches Some(r) ==> (ray_t.holds_inside(r.near as int) ==> t == Some(r.near)),
        t matches Some(k) ==> ray_t.holds_inside(k as int) && (roots matches Some(r) && (k
            == r.near || k == r.far)),
        t matches Some(k) ==> root_in(roots, *ray_t) == Some(k as int),
        t is None ==> root_in(roots, *ray_t) is None,
{
    match roots {
        None => None,
        Some(r) => {
            if ray_t.surrounds(r.near) {
                Some(r.near)
            } else if ray_t.surrounds(r.far) {
                Some(r.far)
            } else {
                None
            }
        },
    }
}

} // verus!
