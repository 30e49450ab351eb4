//! Pixel-level arithmetic: straight alpha from premultiplied alpha, and the
//! size an image is resized to.

use vstd::prelude::*;

verus! {

/// One colour channel with the alpha premultiplication undone, capped at 255.
pub open spec fn unpremultiply(c: u8, a: u8) -> u8
    recommends
        a > 0,
{
    if (c as int) * 255 / (a as int) > 255 {
        255
    } else {
        ((c as int) * 255 / (a as int)) as u8
    }
}

/// Byte `k` (0..4, in RGBA order) of pixel `p` once its alpha premultiplication
/// is undone: a fully transparent pixel becomes all zeros.
pub open spec fn straight_channel(data: Seq<u8>, p: int, k: int) -> u8 {
    let a = data[4 * p + 3];
    if k == 3 {
        a
    } else if a == 0 {
        0
    } else {
        unpremultiply(data[4 * p + k], a)
    }
}

/// Converts premultiplied RGBA pixels to straight RGBA. Trailing bytes that do
/// not make up a whole pixel are dropped.
pub fn demultiply_alpha(data: &[u8]) -> (out: Vec<u8>)
    ensures
        out@.len() == 4 * (data@.len() / 4),
        forall|p: int, k: int|
            0 <= p < data@.len() / 4 && 0 <= k < 4 ==> #[trigger] out@[4 * p + k]
                == straight_channel(data@, p, k),
{
    let n = data.len() / 4;
    let mut out: Vec<u8> = Vec::new();
    let mut p: usize = 0;
    while p < n
        invariant
            n == data@.len() / 4,
            p <= n,
            out@.len() == 4 * p,
            forall|q: int, k: int|
                0 <= q < p && 0 <= k < 4 ==> #[trigger] out@[4 * q + k] == straight_channel(
                    data@,
                    q,
                    k,
                ),
        decreases n - p,
    {
        let base = 4 * p;
        let r = data[base];
        let g = data[base + 1];
        let b = data[base + 2];
        let a = data[base + 3];
        if a == 0 {
            out.push(0);
            out.push(0);
            out.push(0);
            out.push(0);
        } else {
            out.push(unpremultiply_exec(r, a));
            out.push(unpremultiply_exec(g, a));
            out.push(unpremultiply_exec(b, a));
            out.push(a);
        }
        proof {
            assert forall|q: int, k: int| 0 <= q < p + 1 && 0 <= k < 4 implies #[trigger] out@[4 * q + k]
                == straight_channel(data@, q, k) by {
                if q == p {
                    assert(out@[4 * q + k] == out@[4 * p + k]);
                }
            }
        }
        p = p + 1;
    }
    out
}

fn unpremultiply_exec(c: u8, a: u8) -> (r: u8)
    requires
        a > 0,
    ensures
        r == unpremultiply(c, a),
{
    let v = (c as u32) * 255 / (a as u32);
    if v > 255 {
        255
    } else {
        v as u8
    }
}

/// `len * num / den` rounded to the nearest integer (halves up), at least 1 and
/// at most `u32::MAX`.
pub open spec fn scaled_length(len: nat, num: nat, den: nat) -> u32
    recommends
        den > 0,
{
    let v = (len * num * 2 + den) / (den * 2);
    if v < 1 {
        1
    } else if v > u32::MAX {
        u32::MAX
    } else {
        v as u32
    }
}

/// The size an image of `orig_w` x `orig_h` pixels is resized to when a width
/// and/or a height is requested. With one side given, the other keeps the
/// aspect ratio; with both, the image takes exactly that size. With
/// `no_upscale`, a request that would enlarge the image leaves it as it is.
pub open spec fn spec_dimensions(
    orig_w: u32,
    orig_h: u32,
    width: Option<u32>,
    height: Option<u32>,
    no_upscale: bool,
) -> (u32, u32) {
    match (width, height) {
        (None, None) => (orig_w, orig_h),
        (Some(w), Some(h)) => if no_upscale && (w > orig_w || h > orig_h) {
            (orig_w, orig_h)
        } else {
            (w, h)
        },
        (Some(w), None) => if orig_w == 0 || (no_upscale && w > orig_w) {
            (orig_w, orig_h)
        } else {
            (w, scaled_length(orig_h as nat, w as nat, orig_w as nat))
        },
        (None, Some(h)) => if orig_h == 0 || (no_upscale && h > orig_h) {
            (orig_w, orig_h)
        } else {
            (scaled_length(orig_w as nat, h as nat, orig_h as nat), h)
        },
    }
}

fn scaled_length_exec(len: u32, num: u32, den: u32) -> (r: u32)
    requires
        den > 0,
    ensures
        r == scaled_length(len as nat, num as nat, den as nat),
{
    assert((len as int) * (num as int) <= 0xffff_fffe_0000_0001) by (nonlinear_arith)
        requires
            len <= 0xffff_ffff,
            num <= 0xffff_ffff,
    ;
    let prod: u64 = (len as u64) * (num as u64);
    let v: u128 = ((prod as u128) * 2 + (den as u128)) / ((den as u128) * 2);
    if v < 1 {
        1
    } else if v > 0xffff_ffff {
        0xffff_ffff
    } else {
        v as u32
    }
}

/// The target size of a resize; see `spec_dimensions`.
pub fn calculate_dimensions(
    orig_w: u32,
    orig_h: u32,
    width: Option<u32>,
    height: Option<u32>,
    no_upscale: bool,
) -> (r: (u32, u32))
    ensures
        r == spec_dimensions(orig_w, orig_h, width, height, no_upscale),
{
    match (width, height) {
        (None, None) => (orig_w, orig_h),
        (Some(w), Some(h)) => if no_upscale && (w > orig_w || h > orig_h) {
            (orig_w, orig_h)
        } else {
            (w, h)
        },
        (Some(w), None) => if orig_w == 0 || (no_upscale && w > orig_w) {
            (orig_w, orig_h)
        } else {
            (w, scaled_length_exec(orig_h, w, orig_w))
        },
        (None, Some(h)) => if orig_h == 0 || (no_upscale && h > orig_h) {
            (orig_w, orig_h)
        } else {
            (scaled_length_exec(orig_w, h, orig_h), h)
        },
    }
}

} // verus!
