//! The plain-text image format: a header, then one line per pixel.
use vstd::prelude::*;

verus! {

/// The ASCII decimal digits of `n`, without leading zeros.
pub open spec fn decimal(n: nat) -> Seq<u8>
    decreases n,
{
    if n < 10 {
        seq![(48 + n) as u8]
    } else {
        decimal(n / 10).push((48 + n % 10) as u8)
    }
}

/// The header of an image `width` by `height`, with 255 as the largest
/// channel value: the plain-format magic, the size, `255`, each on a line
/// of its own.
pub open spec fn header_text(width: nat, height: nat) -> Seq<u8> {
    seq![80u8, 51, 10] + decimal(width) + seq![32u8] + decimal(height) + seq![10u8, 50, 53, 53, 10]
}

/// One pixel's line: its three channels separated by spaces.
pub open spec fn pixel_text(r: nat, g: nat, b: nat) -> Seq<u8> {
    decimal(r) + seq![32u8] + decimal(g) + seq![32u8] + decimal(b) + seq![10u8]
}

/// Appends the decimal digits of `n` to `out`.
pub fn push_decimal(out: &mut Vec<u8>, n: u32)
    ensures
        final(out)@ == old(out)@ + decimal(n as nat),
    decreases n,
{
    if n >= 10 {
        push_decimal(out, n / 10);
    }
    out.push((48 + n % 10) as u8);
    proof {
        assert(final(out)@ =~= old(out)@ + decimal(n as nat));
    }
}

/// The header of an image `width` by `height`.
pub fn ppm_header(width: u32, height: u32) -> (r: Vec<u8>)
    ensures
        r@ == header_text(width as nat, height as nat),
{
    let mut out: Vec<u8> = Vec::new();
    out.push(80);
    out.push(51);
    out.push(10);
    push_decimal(&mut out, width);
    out.push(32);
    push_decimal(&mut out, height);
    out.push(10);
    out.push(50);
    out.push(53);
    out.push(53);
    out.push(10);
    proof {
        assert(out@ =~= header_text(width as nat, height as nat));
    }
    out
}

/// The line of a pixel with channels `r`, `g` and `b`.
pub fn ppm_pixel(r: u32, g: u32, b: u32) -> (line: Vec<u8>)
    ensures
        line@ == pixel_text(r as nat, g as nat, b as nat),
{
    let mut out: Vec<u8> = Vec::new();
    push_decimal(&mut out, r);
    out.push(32);
    push_decimal(&mut out, g);
    out.push(32);
    push_decimal(&mut out, b);
    out.push(10);
    proof {
        assert(out@ =~= pixel_text(r as nat, g as nat, b as nat));
    }
    out
}

} // verus!
