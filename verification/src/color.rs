//! Chromaticity-to-RGB conversion in fixed-point integer arithmetic.
//!
//! A color command carries a device-independent chromaticity coordinate pair
//! `(x, y)`, each a 16-bit value standing for the fraction `x / 65536` in
//! `[0, 1)`. The converter treats the pair as a chromaticity with unit
//! luminance, converts it through the XYZ intermediate color space with a
//! D65-adapted sRGB matrix, gamma-encodes each channel, and scales to
//! `[0, 255]` by truncation.
//!
//! All arithmetic is fixed point with [`Q_ONE`] standing for 1.0. Out-of-gamut
//! inputs clamp silently to the representable output range — an accepted
//! lossy edge case. A zero `y` denotes no representable color and yields
//! black. Gamma encoding uses the integer square root, a gamma of 2.

use vstd::arithmetic::div_mod::{
    lemma_div_is_ordered, lemma_div_nonincreasing, lemma_div_pos_is_pos,
};
use vstd::prelude::*;

verus! {

/// The fixed-point scale: this value stands for 1.0.
pub const Q_ONE: u64 = 4096;

/// The square of the fixed-point scale; the largest clamped channel
/// numerator.
pub const Q_SQUARED: u64 = 4096 * 4096;

/// One more than the largest chromaticity coordinate: coordinates are
/// fractions of this.
pub const CHROMA_SCALE: u32 = 65536;

// The XYZ-to-linear-sRGB matrix (D65 white), each coefficient scaled by
// Q_ONE. The signs are written out in the channel formulas.
pub const XYZ_TO_R_X: u64 = 13273;

pub const XYZ_TO_R_Y: u64 = 6296;

pub const XYZ_TO_R_Z: u64 = 2042;

pub const XYZ_TO_G_X: u64 = 3969;

pub const XYZ_TO_G_Y: u64 = 7683;

pub const XYZ_TO_G_Z: u64 = 170;

pub const XYZ_TO_B_X: u64 = 228;

pub const XYZ_TO_B_Y: u64 = 836;

pub const XYZ_TO_B_Z: u64 = 4330;

/// A rendered color triple.
#[derive(Clone, Copy, Debug, PartialEq, Eq, Structural)]
pub struct Rgb {
    pub r: u8,
    pub g: u8,
    pub b: u8,
}

/// The X component of the XYZ triple for chromaticity `(x, y)` at unit
/// luminance, scaled by [`Q_ONE`]: `X = x / y`.
pub open spec fn spec_xyz_x_q(x: u16, y: u16) -> int
    recommends
        y > 0,
{
    (x * Q_ONE) / (y as int)
}

/// The Z component of the XYZ triple for chromaticity `(x, y)` at unit
/// luminance, scaled by [`Q_ONE`]: `Z = (1 - x - y) / y`, which is negative
/// for coordinate pairs summing to more than one.
pub open spec fn spec_xyz_z_q(x: u16, y: u16) -> int
    recommends
        y > 0,
{
    if x + y <= CHROMA_SCALE {
        ((CHROMA_SCALE - x - y) * Q_ONE) / (y as int)
    } else {
        -(((x + y - CHROMA_SCALE) * Q_ONE) / (y as int))
    }
}

/// Clamp a channel numerator into the representable range `[0, Q_SQUARED]`:
/// out-of-gamut channels clamp silently.
pub open spec fn spec_clamp_num(v: int) -> int {
    if v < 0 {
        0
    } else if v > Q_SQUARED {
        Q_SQUARED as int
    } else {
        v
    }
}

/// The linear red channel in `[0, Q_ONE]`.
pub open spec fn spec_linear_r(xq: int, zq: int) -> int {
    spec_clamp_num(XYZ_TO_R_X * xq - XYZ_TO_R_Y * Q_ONE - XYZ_TO_R_Z * zq) / (Q_ONE as int)
}

/// The linear green channel in `[0, Q_ONE]`.
pub open spec fn spec_linear_g(xq: int, zq: int) -> int {
    spec_clamp_num(XYZ_TO_G_Y * Q_ONE + XYZ_TO_G_Z * zq - XYZ_TO_G_X * xq) / (Q_ONE as int)
}

/// The linear blue channel in `[0, Q_ONE]`.
pub open spec fn spec_linear_b(xq: int, zq: int) -> int {
    spec_clamp_num(XYZ_TO_B_X * xq - XYZ_TO_B_Y * Q_ONE + XYZ_TO_B_Z * zq) / (Q_ONE as int)
}

/// The integer square root: the largest `r` with `r * r <= n`.
pub open spec fn spec_sqrt_floor(n: nat) -> nat
    decreases n,
{
    if n == 0 {
        0
    } else {
        let r = spec_sqrt_floor((n - 1) as nat);
        if (r + 1) * (r + 1) <= n {
            r + 1
        } else {
            r
        }
    }
}

/// Gamma-encode a linear channel in `[0, Q_ONE]` and scale it to `[0, 255]`
/// by truncation. The encoding is the square root of the channel — a gamma
/// of 2.
pub open spec fn spec_gamma_channel(lin: int) -> int {
    (spec_sqrt_floor((lin * Q_ONE) as nat) as int * 255) / (Q_ONE as int)
}

/// The converted color for chromaticity `(x, y)`: black when `y` is zero,
/// else the gamma-encoded channels of the XYZ-to-sRGB conversion at unit
/// luminance.
pub open spec fn spec_xy_to_rgb(x: u16, y: u16) -> (u8, u8, u8) {
    if y == 0 {
        (0u8, 0u8, 0u8)
    } else {
        let xq = spec_xyz_x_q(x, y);
        let zq = spec_xyz_z_q(x, y);
        (
            spec_gamma_channel(spec_linear_r(xq, zq)) as u8,
            spec_gamma_channel(spec_linear_g(xq, zq)) as u8,
            spec_gamma_channel(spec_linear_b(xq, zq)) as u8,
        )
    }
}

/// The defining bounds of the integer square root:
/// `r * r <= n < (r + 1) * (r + 1)`.
pub proof fn lemma_sqrt_floor_bounds(n: nat)
    ensures
        spec_sqrt_floor(n) * spec_sqrt_floor(n) <= n,
        n < (spec_sqrt_floor(n) + 1) * (spec_sqrt_floor(n) + 1),
    decreases n,
{
    if n == 0 {
        assert(spec_sqrt_floor(n) == 0);
        assert(spec_sqrt_floor(n) * spec_sqrt_floor(n) <= n && n < (spec_sqrt_floor(n) + 1) * (
        spec_sqrt_floor(n) + 1)) by (nonlinear_arith)
            requires
                n == 0,
                spec_sqrt_floor(n) == 0,
        ;
    } else {
        lemma_sqrt_floor_bounds((n - 1) as nat);
        let r = spec_sqrt_floor((n - 1) as nat);
        let s = spec_sqrt_floor(n);
        if (r + 1) * (r + 1) <= n {
            assert(s == r + 1);
            assert(s * s <= n && n < (s + 1) * (s + 1)) by (nonlinear_arith)
                requires
                    s == r + 1,
                    (r + 1) * (r + 1) <= n,
                    n - 1 < (r + 1) * (r + 1),
            ;
        } else {
            assert(s == r);
            assert(s * s <= n && n < (s + 1) * (s + 1)) by (nonlinear_arith)
                requires
                    s == r,
                    r * r <= n - 1,
                    !((r + 1) * (r + 1) <= n),
                    n >= 1,
            ;
        }
    }
}

/// Any `r` within the defining bounds is the integer square root.
pub proof fn lemma_sqrt_floor_unique(n: nat, r: nat)
    requires
        r * r <= n,
        n < (r + 1) * (r + 1),
    ensures
        r == spec_sqrt_floor(n),
{
    lemma_sqrt_floor_bounds(n);
    let s = spec_sqrt_floor(n);
    if r < s {
        assert((r + 1) * (r + 1) <= s * s) by (nonlinear_arith)
            requires
                0 <= r,
                r + 1 <= s,
        ;
    }
    if s < r {
        assert((s + 1) * (s + 1) <= r * r) by (nonlinear_arith)
            requires
                0 <= s,
                s + 1 <= r,
        ;
    }
}

/// The integer square root of values up to [`Q_SQUARED`].
fn isqrt(n: u64) -> (r: u64)
    requires
        n <= Q_SQUARED,
    ensures
        r == spec_sqrt_floor(n as nat),
        r <= Q_ONE,
{
    let mut r: u64 = 0;
    loop
        invariant_except_break
            n <= Q_SQUARED,
            r * r <= n,
            r <= Q_ONE,
        ensures
            r * r <= n,
            n < (r + 1) * (r + 1),
            r <= Q_ONE,
        decreases Q_ONE - r,
    {
        let next = r + 1;
        proof {
            assert(next * next <= 16785409) by (nonlinear_arith)
                requires
                    next <= 4097,
            ;
        }
        let sq = next * next;
        if sq <= n {
            proof {
                assert(r < Q_ONE) by (nonlinear_arith)
                    requires
                        (r + 1) * (r + 1) <= n,
                        n <= Q_SQUARED,
                        Q_SQUARED == Q_ONE * Q_ONE,
                        r >= 0,
                ;
            }
            r = next;
        } else {
            break ;
        }
    }
    proof {
        lemma_sqrt_floor_unique(n as nat, r as nat);
    }
    r
}

/// Gamma-encode a clamped linear channel and scale it to a byte.
fn gamma_channel(lin: u64) -> (c: u8)
    requires
        lin <= Q_ONE,
    ensures
        c == spec_gamma_channel(lin as int),
{
    let s = isqrt(lin * Q_ONE);
    proof {
        lemma_div_is_ordered((s * 255) as int, (Q_ONE * 255) as int, Q_ONE as int);
        lemma_div_pos_is_pos((s * 255) as int, Q_ONE as int);
    }
    ((s * 255) / Q_ONE) as u8
}

/// Clamp a channel numerator into `[0, Q_SQUARED]`.
fn clamp_num(v: i64) -> (c: u64)
    ensures
        c == spec_clamp_num(v as int),
{
    if v < 0 {
        0
    } else if v > Q_SQUARED as i64 {
        Q_SQUARED
    } else {
        v as u64
    }
}

/// Convert a chromaticity coordinate pair into a gamma-encoded color triple.
///
/// The pair is normalized to `[0, 1)` fractions of [`CHROMA_SCALE`], taken as
/// a chromaticity with unit luminance, converted through the XYZ color space
/// to linear sRGB, gamma-encoded and scaled to `[0, 255]` by truncation.
/// Deterministic and total: out-of-gamut inputs clamp silently, and a zero
/// `y` yields black.
pub fn xy_to_rgb(x: u16, y: u16) -> (rgb: (u8, u8, u8))
    ensures
        rgb == spec_xy_to_rgb(x, y),
{
    if y == 0 {
        return (0, 0, 0);
    }
    let xnum: u64 = (x as u64) * Q_ONE;
    let xq_u: u64 = xnum / (y as u64);
    proof {
        lemma_div_nonincreasing(xnum as int, y as int);
        lemma_div_pos_is_pos(xnum as int, y as int);
    }
    let xq: i64 = xq_u as i64;
    let sum: u32 = (x as u32) + (y as u32);
    let zq: i64 = if sum <= CHROMA_SCALE {
        let znum: u64 = ((CHROMA_SCALE - sum) as u64) * Q_ONE;
        proof {
            lemma_div_nonincreasing(znum as int, y as int);
            lemma_div_pos_is_pos(znum as int, y as int);
        }
        (znum / (y as u64)) as i64
    } else {
        let znum: u64 = ((sum - CHROMA_SCALE) as u64) * Q_ONE;
        proof {
            lemma_div_nonincreasing(znum as int, y as int);
            lemma_div_pos_is_pos(znum as int, y as int);
        }
        -((znum / (y as u64)) as i64)
    };
    proof {
        assert(0 <= xq <= 268435456);
        assert(-268435456 <= zq <= 268435456);
    }
    // The coefficients are written as literals so the overflow checks stay
    // within linear arithmetic; the assertions below tie them to the named
    // matrix constants of the specification.
    let num_r: i64 = 13273 * xq - 25788416 - 2042 * zq;
    let num_g: i64 = 31469568 + 170 * zq - 3969 * xq;
    let num_b: i64 = 228 * xq - 3424256 + 4330 * zq;
    proof {
        assert(num_r == XYZ_TO_R_X * xq - XYZ_TO_R_Y * Q_ONE - XYZ_TO_R_Z * zq);
        assert(num_g == XYZ_TO_G_Y * Q_ONE + XYZ_TO_G_Z * zq - XYZ_TO_G_X * xq);
        assert(num_b == XYZ_TO_B_X * xq - XYZ_TO_B_Y * Q_ONE + XYZ_TO_B_Z * zq);
    }
    let lin_r: u64 = clamp_num(num_r) / Q_ONE;
    let lin_g: u64 = clamp_num(num_g) / Q_ONE;
    let lin_b: u64 = clamp_num(num_b) / Q_ONE;
    proof {
        lemma_div_is_ordered(spec_clamp_num(num_r as int), Q_SQUARED as int, Q_ONE as int);
        lemma_div_is_ordered(spec_clamp_num(num_g as int), Q_SQUARED as int, Q_ONE as int);
        lemma_div_is_ordered(spec_clamp_num(num_b as int), Q_SQUARED as int, Q_ONE as int);
        lemma_div_pos_is_pos(spec_clamp_num(num_r as int), Q_ONE as int);
        lemma_div_pos_is_pos(spec_clamp_num(num_g as int), Q_ONE as int);
        lemma_div_pos_is_pos(spec_clamp_num(num_b as int), Q_ONE as int);
    }
    (gamma_channel(lin_r), gamma_channel(lin_g), gamma_channel(lin_b))
}

} // verus!
