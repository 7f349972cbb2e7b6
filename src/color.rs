use vstd::prelude::*;

verus! {

/// The transform's coefficients are given to three decimals; every channel is
/// computed exactly as a numerator over this denominator (1000 · 255).
pub const SCALE: i64 = 255000;

/// `Y · SCALE` for the pixel (r, g, b):
/// `Y = 16 + (65.481·R + 128.553·G + 24.966·B) / 255`.
pub open spec fn luma_numer(r: u8, g: u8, b: u8) -> int {
    16 * 255000 + 65481 * r + 128553 * g + 24966 * b
}

/// `Cb · SCALE`: `Cb = 128 + (-37.797·R - 74.203·G + 112.000·B) / 255`.
pub open spec fn blue_numer(r: u8, g: u8, b: u8) -> int {
    128 * 255000 - 37797 * r - 74203 * g + 112000 * b
}

/// `Cr · SCALE`: `Cr = 128 + (112.000·R - 93.786·G - 18.214·B) / 255`.
pub open spec fn red_numer(r: u8, g: u8, b: u8) -> int {
    128 * 255000 + 112000 * r - 93786 * g - 18214 * b
}

/// The value `n / SCALE` rounded to the nearest integer, halves away from
/// zero, then clamped to `[0, 255]`.
pub open spec fn channel(n: int) -> u8 {
    if n < 0 {
        0
    } else if (2 * n + 255000) / 510000 > 255 {
        255
    } else {
        ((2 * n + 255000) / 510000) as u8
    }
}

pub open spec fn ycbcr(r: u8, g: u8, b: u8) -> (u8, u8, u8) {
    (channel(luma_numer(r, g, b)), channel(blue_numer(r, g, b)), channel(red_numer(r, g, b)))
}

/// Rounds and clamps one channel given as a numerator over `SCALE`.
pub fn clamp(numer: i64) -> (r: u8)
    ensures
        r == channel(numer as int),
{
    if numer < 0 {
        0
    } else if numer > 1_000_000_000 {
        255
    } else {
        let v: i64 = (2 * numer + 255000) / 510000;
        if v > 255 {
            255
        } else {
            v as u8
        }
    }
}

/// Converts one RGB pixel to luma and the two chroma differences.
pub fn to_ycbcr(r: u8, g: u8, b: u8) -> (out: (u8, u8, u8))
    ensures
        out == ycbcr(r, g, b),
{
    let (r, g, b) = (r as i64, g as i64, b as i64);
    let y = 16 * SCALE + 65481 * r + 128553 * g + 24966 * b;
    let cb = 128 * SCALE - 37797 * r - 74203 * g + 112000 * b;
    let cr = 128 * SCALE + 112000 * r - 93786 * g - 18214 * b;
    (clamp(y), clamp(cb), clamp(cr))
}

/// Splits interleaved RGB into the three planes Y, Cb and Cr, one byte per
/// pixel each; a trailing incomplete pixel is ignored.
pub fn rgb_to_planes(rgb: &Vec<u8>) -> (planes: (Vec<u8>, Vec<u8>, Vec<u8>))
    ensures
        planes.0@.len() == rgb@.len() / 3,
        planes.1@.len() == rgb@.len() / 3,
        planes.2@.len() == rgb@.len() / 3,
        forall|i: int|
            0 <= i < rgb@.len() / 3 ==> {
                let px = ycbcr(rgb@[3 * i], rgb@[3 * i + 1], rgb@[3 * i + 2]);
                &&& #[trigger] planes.0@[i] == px.0
                &&& planes.1@[i] == px.1
                &&& planes.2@[i] == px.2
            },
{
    let len: usize = rgb.len();
    let n: usize = len / 3;
    let mut ys: Vec<u8> = Vec::with_capacity(n);
    let mut cbs: Vec<u8> = Vec::with_capacity(n);
    let mut crs: Vec<u8> = Vec::with_capacity(n);
    let mut i: usize = 0;
    while i < n
        invariant
            n == rgb@.len() / 3,
            len == rgb@.len(),
            i <= n,
            ys@.len() == i,
            cbs@.len() == i,
            crs@.len() == i,
            forall|k: int|
                0 <= k < i ==> {
                    let px = ycbcr(rgb@[3 * k], rgb@[3 * k + 1], rgb@[3 * k + 2]);
                    &&& #[trigger] ys@[k] == px.0
                    &&& cbs@[k] == px.1
                    &&& crs@[k] == px.2
                },
        decreases n - i,
    {
        assert(3 * i + 2 < len) by (nonlinear_arith)
            requires
                i < n,
                n == len / 3,
        ;
        let (y, cb, cr) = to_ycbcr(rgb[3 * i], rgb[3 * i + 1], rgb[3 * i + 2]);
        ys.push(y);
        cbs.push(cb);
        crs.push(cr);
        i = i + 1;
    }
    (ys, cbs, crs)
}

} // verus!
