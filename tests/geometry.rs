use raytracer::distance::{distance_bits, distance_key, INFINITY_KEY};
use raytracer::hittable_list::closest_hit;
use raytracer::interval::Interval;
use raytracer::sphere::{nearest_root, Roots};

fn key(x: f64) -> i64 {
    distance_key(x.to_bits())
}

fn value(k: i64) -> f64 {
    f64::from_bits(distance_bits(k))
}

fn hit_range() -> Interval {
    Interval::new(key(0.001), key(f64::INFINITY))
}

fn roots(a: f64, b: f64) -> Option<Roots> {
    Some(Roots::new(key(a), key(b)))
}

#[test]
fn keys_follow_the_order_of_distances() {
    let xs = [f64::NEG_INFINITY, -2.5, -1.0, -1e-300, 0.0, 1e-300, 0.001, 0.5, 1.5, 1e300, f64::INFINITY];
    for w in xs.windows(2) {
        assert!(key(w[0]) < key(w[1]), "{} {}", w[0], w[1]);
    }
    assert_eq!(key(0.0), 0);
    assert_eq!(key(-0.0), 0);
    assert_eq!(key(f64::INFINITY), INFINITY_KEY);
    assert_eq!(key(f64::NEG_INFINITY), -INFINITY_KEY);
    assert!(key(f64::NAN) > INFINITY_KEY || key(f64::NAN) < -INFINITY_KEY);
}

#[test]
fn keys_decode_to_the_same_distance() {
    for x in [-3.25, -1e-10, 0.0, 0.001, 0.5, 7.0, f64::INFINITY, f64::NEG_INFINITY] {
        assert_eq!(value(key(x)), x);
    }
    assert_eq!(distance_bits(0), 0);
    assert_eq!(value(key(-0.0)).to_bits(), 0.0f64.to_bits());
}

#[test]
fn interval_contains_and_surrounds() {
    let i = Interval::new(key(1.0), key(2.0));
    assert!(i.contains(key(1.0)));
    assert!(i.contains(key(2.0)));
    assert!(i.contains(key(1.5)));
    assert!(!i.contains(key(2.5)));
    assert!(!i.surrounds(key(1.0)));
    assert!(!i.surrounds(key(2.0)));
    assert!(i.surrounds(key(1.5)));
    assert!(!i.surrounds(key(0.5)));
}

#[test]
fn interval_clamp_saturates() {
    let i = Interval::new(key(0.0), key(0.999));
    assert_eq!(value(i.clamp(key(-0.5))), 0.0);
    assert_eq!(value(i.clamp(key(0.25))), 0.25);
    assert_eq!(value(i.clamp(key(3.0))), 0.999);
    assert_eq!(value(i.clamp(key(0.999))), 0.999);
}

#[test]
fn interval_empty_and_universe() {
    let e = Interval::empty();
    for x in [f64::NEG_INFINITY, -1.0, 0.0, 1.0, f64::INFINITY] {
        assert!(!e.contains(key(x)));
    }
    let u = Interval::universe();
    for x in [f64::NEG_INFINITY, -1.0, 0.0, 1.0, f64::INFINITY] {
        assert!(u.contains(key(x)));
    }
    assert!(!u.contains(key(f64::NAN)));
    assert_eq!(u, Interval::new(-INFINITY_KEY, INFINITY_KEY));
}

#[test]
fn roots_are_kept_smaller_first() {
    let r = Roots::new(key(1.5), key(0.5));
    assert_eq!(r.near, key(0.5));
    assert_eq!(r.far, key(1.5));
    assert_eq!(Roots::new(key(0.5), key(1.5)), r);
}

#[test]
fn no_roots_no_hit() {
    assert_eq!(nearest_root(None, &hit_range()), None);
}

#[test]
fn sphere_head_on_hit() {
    // A ray from the origin along -z against the sphere at (0,0,-1) of radius 0.5.
    let (dir, oc, radius) = ([0.0f64, 0.0, -1.0], [0.0f64, 0.0, -1.0], 0.5f64);
    let a = dir.iter().map(|d| d * d).sum::<f64>();
    let h = dir.iter().zip(oc.iter()).map(|(d, o)| d * o).sum::<f64>();
    let c = oc.iter().map(|o| o * o).sum::<f64>() - radius * radius;
    let sqrtd = (h * h - a * c).sqrt();
    let t = nearest_root(roots((h - sqrtd) / a, (h + sqrtd) / a), &hit_range());
    assert_eq!(t.map(value), Some(0.5));
}

#[test]
fn far_root_when_near_root_is_behind() {
    // The ray starts inside the sphere: the smaller root is negative.
    assert_eq!(nearest_root(roots(-0.5, 0.5), &hit_range()).map(value), Some(0.5));
    // A root at the range's lower end is not accepted.
    assert_eq!(nearest_root(roots(0.001, 2.0), &hit_range()).map(value), Some(2.0));
}

#[test]
fn both_roots_outside() {
    let r = Interval::new(key(0.001), key(1.0));
    assert_eq!(nearest_root(roots(-2.0, -1.0), &r), None);
    assert_eq!(nearest_root(roots(1.0, 3.0), &r), None);
    assert_eq!(nearest_root(roots(-1.0, 1.0), &r), None);
}

#[test]
fn empty_scene_is_missed() {
    assert_eq!(closest_hit(&vec![], &hit_range()), None);
}

#[test]
fn scene_reports_the_nearest_object() {
    let scene = vec![roots(3.0, 4.0), None, roots(1.0, 2.0), roots(-1.0, 2.5), roots(5.0, 6.0)];
    let hit = closest_hit(&scene, &hit_range());
    assert_eq!(hit.map(|(i, t)| (i, value(t))), Some((2, 1.0)));
}

#[test]
fn scene_hit_does_not_depend_on_order() {
    let a = roots(3.0, 4.0);
    let b = roots(-1.0, 1.25);
    let c = roots(2.0, 9.0);
    let orders = [
        vec![a, b, c, None],
        vec![c, None, b, a],
        vec![None, b, a, c],
        vec![c, a, None, b],
    ];
    for scene in orders.iter() {
        let hit = closest_hit(scene, &hit_range());
        let (i, t) = hit.unwrap();
        assert_eq!(value(t), 1.25);
        assert_eq!(scene[i], b);
    }
}

#[test]
fn scene_tie_goes_to_the_first_object() {
    let scene = vec![roots(4.0, 5.0), roots(2.0, 3.0), roots(2.0, 7.0)];
    assert_eq!(closest_hit(&scene, &hit_range()).map(|(i, t)| (i, value(t))), Some((1, 2.0)));
}

#[test]
fn scene_missed_when_nothing_in_range() {
    let scene = vec![None, roots(-3.0, -2.0), roots(7.0, 8.0)];
    let r = Interval::new(key(0.001), key(5.0));
    assert_eq!(closest_hit(&scene, &r), None);
}

#[test]
fn scene_far_root_can_be_nearest() {
    // The ray starts inside the second sphere: its larger root is the hit.
    let scene = vec![roots(3.0, 4.0), roots(-1.0, 2.0)];
    assert_eq!(closest_hit(&scene, &hit_range()).map(|(i, t)| (i, value(t))), Some((1, 2.0)));
}
