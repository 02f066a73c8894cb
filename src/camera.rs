//! The camera's integer decisions: image size, pixel order, and when the
//! recursive radiance estimator stops.
use vstd::prelude::*;

verus! {

/// The image height for an image width divided by the aspect ratio and
/// truncated: never less than one row.
pub fn image_height(fitted: u32) -> (h: u32)
    ensures
        h == if fitted < 1 { 1 } else { fitted },
{
    if fitted < 1 {
        1
    } else {
        fitted
    }
}

/// The position of pixel `(x, y)` in row-major order, top row first, of an
/// image `width` pixels wide.
pub fn pixel_index(x: u32, y: u32, width: u32) -> (k: u64)
    requires
        x < width,
    ensures
        k == y * width + x,
{
    proof {
        assert(y * width + x < (y + 1) * width) by (nonlinear_arith)
            requires
                x < width,
        ;
        assert((y + 1) * width <= 0x1_0000_0000 * 0x1_0000_0000) by (nonlinear_arith)
            requires
                y < 0x1_0000_0000,
                width < 0x1_0000_0000,
        ;
    }
    (y as u64) * (width as u64) + (x as u64)
}

/// What a traced ray met at its bounce.
#[derive(Clone, Copy, Debug, PartialEq, Eq, Structural)]
pub enum Bounce {
    /// No object lies on the ray.
    Missed,
    /// An object's material absorbed the ray.
    Absorbed,
    /// An object's material scattered the ray.
    Scattered,
}

/// What the radiance estimator does after a bounce.
#[derive(Clone, Copy, Debug, PartialEq, Eq, Structural)]
pub enum PathStep {
    /// The path gathers no light: its color is black.
    Black,
    /// The path leaves the scene: its color is the sky's gradient.
    Background,
    /// The path goes on along the scattered ray, with this bounce budget,
    /// its color weighted by the material's attenuation.
    Follow(i32),
}

/// Whether a ray with `depth` bounces left is traced at all; one that is not
/// gathers no light, whatever the ray and the scene.
pub fn traces(depth: i32) -> (r: bool)
    ensures
        r == (depth > 0),
{
    depth > 0
}

/// The step after a traced ray's bounce.
pub fn after_bounce(depth: i32, bounce: Bounce) -> (s: PathStep)
    requires
        depth > 0,
    ensures
        bounce == Bounce::Missed ==> s == PathStep::Background,
        bounce == Bounce::Absorbed ==> s == PathStep::Black,
        bounce == Bounce::Scattered ==> s == PathStep::Follow((depth - 1) as i32),
        s matches PathStep::Follow(d) ==> 0 <= d < depth,
{
    match bounce {
        Bounce::Missed => PathStep::Background,
        Bounce::Absorbed => PathStep::Black,
        Bounce::Scattered => PathStep::Follow(depth - 1),
    }
}

} // verus!
