//! Decision logic of a Monte Carlo path tracer over spheres.
//!
//! The numeric work of the renderer (vector algebra, square roots, random
//! sampling) runs on `f64` and lives with the program that drives it. This
//! library holds what the renderer decides: which distances are accepted,
//! which root and which object a ray meets first, when a light path ends, and
//! the text of the image it writes. Distances enter it as order keys
//! (see `distance`), integers whose order is the order of the distances.
pub mod distance;
pub mod interval;
pub mod sphere;
pub mod hittable_list;
pub mod camera;
pub mod ppm;
