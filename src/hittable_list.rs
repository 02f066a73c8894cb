//! The nearest hit among the objects of a scene.
use vstd::prelude::*;

use crate::interval::Interval;
use crate::sphere::{nearest_root, root_in, Roots};

verus! {

/// Every object's roots, where it has any, are in order.
pub open spec fn roots_wf(s: Seq<Option<Roots>>) -> bool {
    forall|j: int| 0 <= j < s.len() ==> (#[trigger] s[j] matches Some(r) ==> r.wf())
}

/// No object is met within `ray_t`.
pub open spec fn no_hit(s: Seq<Option<Roots>>, ray_t: Interval) -> bool {
    forall|j: int| 0 <= j < s.len() ==> (#[trigger] root_in(s[j], ray_t)) is None
}

/// Object `i` is met within `ray_t` at `t`, no object is met nearer, and
/// none before `i` is met as near.
pub open spec fn is_nearest(s: Seq<Option<Roots>>, ray_t: Interval, i: int, t: int) -> bool {
    &&& 0 <= i < s.len()
    &&& root_in(s[i], ray_t) == Some(t)
    &&& forall|j: int|
        0 <= j < s.len() ==> (#[trigger] root_in(s[j], ray_t) matches Some(u) ==> t <= u)
    &&& forall|j: int| 0 <= j < i ==> (#[trigger] root_in(s[j], ray_t) matches Some(u) ==> t < u)
}

/// Where roots in order meet the narrower range `(ray_t.min, t)`: where
/// they meet `ray_t`, if that is before `t`.
proof fn lemma_narrowed(r: Option<Roots>, ray_t: Interval, t: i64)
    requires
        r matches Some(x) ==> x.wf(),
        t <= ray_t.max,
    ensures
        root_in(r, Interval { min: ray_t.min, max: t }) == (match root_in(r, ray_t) {
            Some(u) => if u < t { Some(u) } else { None },
            None => None,
        }),
{
}

/// The object of `roots` that a ray meets first within `ray_t`, with the
/// distance, as a scene aggregate finds it: each object is asked for a hit
/// only nearer than the best found so far. `roots[j]` holds the roots of the
/// ray's quadratic for object `j`, or `None` where its discriminant is
/// negative.
pub fn closest_hit(roots: &Vec<Option<Roots>>, ray_t: &Interval) -> (r: Option<(usize, i64)>)
    requires
        roots_wf(roots@),
    ensures
        r is None <==> no_hit(roots@, *ray_t),
        r matches Some((i, t)) ==> is_nearest(roots@, *ray_t, i as int, t as int),
{
    let mut best: Option<(usize, i64)> = None;
    let mut closest_so_far: i64 = ray_t.max;
    let mut j: usize = 0;
    while j < roots.len()
        invariant
            j <= roots.len(),
            roots_wf(roots@),
            best is None ==> closest_so_far == ray_t.max && no_hit(roots@.take(j as int), *ray_t),
            best matches Some((i, t)) ==> closest_so_far == t && i < j && is_nearest(
                roots@.take(j as int),
                *ray_t,
                i as int,
                t as int,
            ),
        decreases roots.len() - j,
    {
        let narrowed = Interval::new(ray_t.min, closest_so_far);
        let found = nearest_root(roots[j], &narrowed);
        proof {
            lemma_narrowed(roots@[j as int], *ray_t, closest_so_far);
            assert(roots@.take(j + 1) =~= roots@.take(j as int).push(roots@[j as int]));
        }
        if let Some(t) = found {
            closest_so_far = t;
            best = Some((j, t));
        }
        j = j + 1;
    }
    proof {
        assert(roots@.take(j as int) =~= roots@);
    }
    best
}

/// The nearest hit does not depend on the order of the objects: two
/// orderings of one collection are both missed, or both met first at the
/// same distance.
pub proof fn lemma_nearest_order_free(s1: Seq<Option<Roots>>, s2: Seq<Option<Roots>>, ray_t: Interval)
    requires
        s1.to_multiset() == s2.to_multiset(),
    ensures
        no_hit(s1, ray_t) <==> no_hit(s2, ray_t),
        forall|i1: int, t1: int, i2: int, t2: int|
            is_nearest(s1, ray_t, i1, t1) && is_nearest(s2, ray_t, i2, t2) ==> t1 == t2,
{
    broadcast use vstd::seq_lib::group_to_multiset_ensures;

    assert forall|j: int| 0 <= j < s1.len() implies exists|k: int|
        0 <= k < s2.len() && s2[k] == #[trigger] s1[j] by {
        assert(s1.contains(s1[j]));
        assert(s1.to_multiset().count(s1[j]) > 0);
        assert(s2.contains(s1[j]));
    }
    assert forall|k: int| 0 <= k < s2.len() implies exists|j: int|
        0 <= j < s1.len() && s1[j] == #[trigger] s2[k] by {
        assert(s2.contains(s2[k]));
        assert(s2.to_multiset().count(s2[k]) > 0);
        assert(s1.contains(s2[k]));
    }
    if no_hit(s1, ray_t) {
        assert forall|k: int| 0 <= k < s2.len() implies (#[trigger] root_in(s2[k], ray_t)) is None by {
            let j = choose|j: int| 0 <= j < s1.len() && s1[j] == s2[k];
            assert(root_in(s1[j], ray_t) is None);
        }
    }
    if no_hit(s2, ray_t) {
        assert forall|j: int| 0 <= j < s1.len() implies (#[trigger] root_in(s1[j], ray_t)) is None by {
            let k = choose|k: int| 0 <= k < s2.len() && s2[k] == s1[j];
            assert(root_in(s2[k], ray_t) is None);
        }
    }
    assert forall|i1: int, t1: int, i2: int, t2: int|
        is_nearest(s1, ray_t, i1, t1) && is_nearest(s2, ray_t, i2, t2) implies t1 == t2 by {
        let k = choose|k: int| 0 <= k < s2.len() && s2[k] == s1[i1];
        assert(root_in(s2[k], ray_t) == Some(t1));
        let j = choose|j: int| 0 <= j < s1.len() && s1[j] == s2[i2];
        assert(root_in(s1[j], ray_t) == Some(t2));
    }
}

} // verus!
