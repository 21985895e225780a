//! Fixed-point BT.601 luminance of one packed color pixel.
use vstd::prelude::*;

verus! {

/// Weight of the red channel, 0.299 scaled by 65536.
pub const R_Y: u32 = 19595;

/// Weight of the green channel, 0.587 scaled by 65536.
pub const G_Y: u32 = 38470;

/// Weight of the blue channel, 0.114 scaled by 65536.
pub const B_Y: u32 = 7471;

/// The weighted channel sum before the final shift.
pub open spec fn weighted_sum(blue: int, green: int, red: int) -> int {
    red * 19595 + green * 38470 + blue * 7471
}

/// Luminance of a pixel: the weighted sum divided by 65536, truncated.
pub open spec fn luma_spec(blue: int, green: int, red: int) -> int {
    weighted_sum(blue, green, red) / 65536
}

/// Computes the luminance byte of the pixel with the given channels.
pub fn luma(blue: u8, green: u8, red: u8) -> (r: u8)
    ensures
        r as int == luma_spec(blue as int, green as int, red as int),
{
    let b = blue as u32;
    let g = green as u32;
    let r = red as u32;
    proof {
        lemma_luma_in_range(b as int, g as int, r as int);
    }
    assert(r * R_Y + g * G_Y + b * B_Y <= 255 * 65536) by (nonlinear_arith)
        requires
            r <= 255,
            g <= 255,
            b <= 255,
    ;
    let sum: u32 = r * R_Y + g * G_Y + b * B_Y;
    let gray: u32 = sum >> 16;
    assert(gray == sum / 65536) by (bit_vector)
        requires
            gray == sum >> 16,
    ;
    gray as u8
}

/// The luminance of any three channel values in [0, 255] lies in [0, 255].
pub proof fn lemma_luma_in_range(blue: int, green: int, red: int)
    requires
        0 <= blue <= 255,
        0 <= green <= 255,
        0 <= red <= 255,
    ensures
        0 <= luma_spec(blue, green, red) <= 255,
{
    assert(0 <= weighted_sum(blue, green, red) <= 255 * 65536) by (nonlinear_arith)
        requires
            0 <= blue <= 255,
            0 <= green <= 255,
            0 <= red <= 255,
    ;
}

/// Raising one channel while the other two stay fixed never lowers the luminance.
pub proof fn lemma_luma_monotonic(b1: int, g1: int, r1: int, b2: int, g2: int, r2: int)
    requires
        b1 <= b2,
        g1 <= g2,
        r1 <= r2,
        (b1 == b2 && g1 == g2) || (b1 == b2 && r1 == r2) || (g1 == g2 && r1 == r2),
    ensures
        luma_spec(b1, g1, r1) <= luma_spec(b2, g2, r2),
{
    assert(weighted_sum(b1, g1, r1) <= weighted_sum(b2, g2, r2)) by (nonlinear_arith)
        requires
            b1 <= b2,
            g1 <= g2,
            r1 <= r2,
    ;
    vstd::arithmetic::div_mod::lemma_div_is_ordered(
        weighted_sum(b1, g1, r1),
        weighted_sum(b2, g2, r2),
        65536,
    );
}

/// A pixel whose three color channels are equal has exactly that value as luminance,
/// because the weights sum to 65536.
pub proof fn lemma_luma_of_gray(v: int)
    ensures
        luma_spec(v, v, v) == v,
{
    assert(weighted_sum(v, v, v) == 65536 * v) by (nonlinear_arith);
    vstd::arithmetic::div_mod::lemma_div_multiples_vanish(v, 65536);
}

} // verus!
