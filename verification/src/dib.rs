//! The clipboard device-independent-bitmap encoder.
//!
//! A positive-height DIB is bottom-up: the top source row becomes the
//! bottom destination row, each pixel stored as BGRA, with a 40-byte
//! little-endian header in front.  Row stride is `width * 4` bytes with no
//! padding, since 32-bit pixels are already aligned.

use vstd::prelude::*;

use vstd::arithmetic::div_mod::lemma_fundamental_div_mod_converse;

verus! {

/// The two little-endian bytes of a 16-bit value.
pub open spec fn spec_u16_le(v: u16) -> Seq<u8> {
    seq![(v & 0xFF) as u8, ((v >> 8) & 0xFF) as u8]
}

/// The four little-endian bytes of a 32-bit value.
pub open spec fn spec_u32_le(v: u32) -> Seq<u8> {
    seq![
        (v & 0xFF) as u8,
        ((v >> 8) & 0xFF) as u8,
        ((v >> 16) & 0xFF) as u8,
        ((v >> 24) & 0xFF) as u8,
    ]
}

/// The 40-byte bitmap info header for a `w` by `h` 32-bit bottom-up DIB
/// whose pixel block has `size_image` bytes: header size 40, positive
/// height (bottom-up), one plane, 32 bits per pixel, uncompressed, all
/// remaining fields zero.
pub open spec fn spec_dib_header(w: u32, h: u32, size_image: u32) -> Seq<u8> {
    spec_u32_le(40) + spec_u32_le(w) + spec_u32_le(h) + spec_u16_le(1) + spec_u16_le(32)
        + spec_u32_le(0) + spec_u32_le(size_image) + spec_u32_le(0) + spec_u32_le(0) + spec_u32_le(
        0,
    ) + spec_u32_le(0)
}

/// Byte `i` of the encoded pixel block for a `w` by `h` RGBA image: the
/// block stores row `h - 1 - yb` of the source at block row `yb`, each
/// pixel's channels reordered RGBA to BGRA.
pub open spec fn spec_dib_pixel_at(w: int, h: int, rgba: Seq<u8>, i: int) -> u8 {
    let p = i / 4;
    let ch = i % 4;
    let x = p % w;
    let yb = p / w;
    let ysrc = h - 1 - yb;
    let base = 4 * (ysrc * w + x);
    if ch == 0 {
        rgba[base + 2]
    } else if ch == 1 {
        rgba[base + 1]
    } else if ch == 2 {
        rgba[base]
    } else {
        rgba[base + 3]
    }
}

/// The encoded pixel block: exactly `4 * w * h` bytes, bottom-up, BGRA.
pub open spec fn spec_dib_pixels(w: int, h: int, rgba: Seq<u8>) -> Seq<u8> {
    Seq::new((4 * w * h) as nat, |i: int| spec_dib_pixel_at(w, h, rgba, i))
}

/// The whole clipboard payload: header, then pixel block.
pub open spec fn spec_dib_payload(w: u32, h: u32, rgba: Seq<u8>) -> Seq<u8> {
    spec_dib_header(w, h, (4 * w * h) as u32) + spec_dib_pixels(w as int, h as int, rgba)
}

/// Append the two little-endian bytes of `x`.
fn push_u16_le(out: &mut Vec<u8>, x: u16)
    ensures
        final (out)@ == old(out)@ + spec_u16_le(x),
{
    out.push((x & 0xFF) as u8);
    out.push(((x >> 8) & 0xFF) as u8);
    proof {
        assert(final (out)@ =~= old(out)@ + spec_u16_le(x));
    }
}

/// Append the four little-endian bytes of `x`.
fn push_u32_le(out: &mut Vec<u8>, x: u32)
    ensures
        final (out)@ == old(out)@ + spec_u32_le(x),
{
    out.push((x & 0xFF) as u8);
    out.push(((x >> 8) & 0xFF) as u8);
    out.push(((x >> 16) & 0xFF) as u8);
    out.push(((x >> 24) & 0xFF) as u8);
    proof {
        assert(final (out)@ =~= old(out)@ + spec_u32_le(x));
    }
}

/// Where byte `4 * (yb * w + x) + ch` of the pixel block reads from: the
/// index arithmetic behind `spec_dib_pixel_at`, resolved for one output
/// position.
proof fn lemma_dib_index(w: int, h: int, rgba: Seq<u8>, yb: int, x: int, ch: int)
    requires
        1 <= w,
        1 <= h,
        0 <= yb < h,
        0 <= x < w,
        0 <= ch < 4,
        rgba.len() == 4 * w * h,
    ensures
        ({
            let base = 4 * ((h - 1 - yb) * w + x);
            spec_dib_pixel_at(w, h, rgba, 4 * (yb * w + x) + ch) == if ch == 0 {
                rgba[base + 2]
            } else if ch == 1 {
                rgba[base + 1]
            } else if ch == 2 {
                rgba[base]
            } else {
                rgba[base + 3]
            }
        }),
{
    let p = yb * w + x;
    let i = 4 * p + ch;
    assert(0 <= p < w * h) by (nonlinear_arith)
        requires
            1 <= w,
            1 <= h,
            0 <= yb < h,
            0 <= x < w,
            p == yb * w + x,
    ;
    lemma_fundamental_div_mod_converse(i, 4, p, ch);
    lemma_fundamental_div_mod_converse(p, w, yb, x);
}

/// Rows of a `w` by `h` RGBA image stay inside the buffer: the byte range
/// of pixel `(x, y)` lies within `4 * w * h`.
proof fn lemma_pixel_base_bound(w: int, h: int, y: int, x: int)
    requires
        1 <= w,
        1 <= h,
        0 <= y < h,
        0 <= x < w,
    ensures
        0 <= 4 * (y * w + x),
        4 * (y * w + x) + 4 <= 4 * w * h,
{
    assert(0 <= 4 * (y * w + x) && 4 * (y * w + x) + 4 <= 4 * w * h) by (nonlinear_arith)
        requires
            1 <= w,
            1 <= h,
            0 <= y < h,
            0 <= x < w,
    ;
}

/// Encode the pixel block: convert every RGBA pixel to BGRA and flip the
/// rows vertically, so the top source row lands at the block's end.
pub fn encode_dib_pixels(w: u32, h: u32, rgba: &Vec<u8>) -> (out: Vec<u8>)
    requires
        rgba@.len() == 4 * (w as int) * (h as int),
    ensures
        out@ == spec_dib_pixels(w as int, h as int, rgba@),
{
    let wi = w as usize;
    let hi = h as usize;
    let len = rgba.len();
    let mut out: Vec<u8> = Vec::new();
    proof {
        assert(4 * (0 * (w as int)) == 0) by (nonlinear_arith);
    }
    for yb in 0..hi
        invariant
            wi == w as int,
            hi == h as int,
            len == rgba@.len(),
            rgba@.len() == 4 * (w as int) * (h as int),
            out@.len() == 4 * ((yb as int) * (w as int)),
            forall|i: int|
                0 <= i < out@.len() ==> out@[i] == spec_dib_pixel_at(w as int, h as int, rgba@, i),
    {
        let ysrc = hi - 1 - yb;
        for x in 0..wi
            invariant
                wi == w as int,
                hi == h as int,
                len == rgba@.len(),
                0 <= (yb as int) && (yb as int) < (h as int),
                ysrc as int == h - 1 - yb,
                rgba@.len() == 4 * (w as int) * (h as int),
                out@.len() == 4 * ((yb as int) * (w as int)) + 4 * (x as int),
                forall|i: int|
                    0 <= i < out@.len() ==> out@[i] == spec_dib_pixel_at(
                        w as int,
                        h as int,
                        rgba@,
                        i,
                    ),
        {
            proof {
                assert(0 <= (ysrc as int) * (w as int) + (x as int) && 4 * ((ysrc as int) * (
                w as int) + (x as int)) + 4 <= 4 * (w as int) * (h as int)) by (nonlinear_arith)
                    requires
                        (ysrc as int) == (h as int) - 1 - (yb as int),
                        0 <= (yb as int) && (yb as int) < (h as int),
                        0 <= (x as int) && (x as int) < (w as int),
                ;
            }
            let base: usize = 4 * (ysrc * wi + x);
            out.push(rgba[base + 2]);
            out.push(rgba[base + 1]);
            out.push(rgba[base]);
            out.push(rgba[base + 3]);
            proof {
                let wint = w as int;
                let hint = h as int;
                let p = (yb as int) * wint + (x as int);
                lemma_dib_index(wint, hint, rgba@, yb as int, x as int, 0);
                lemma_dib_index(wint, hint, rgba@, yb as int, x as int, 1);
                lemma_dib_index(wint, hint, rgba@, yb as int, x as int, 2);
                lemma_dib_index(wint, hint, rgba@, yb as int, x as int, 3);
                assert((ysrc as int) * wint == ((hint - 1 - (yb as int)) * wint))
                    by (nonlinear_arith)
                    requires
                        (ysrc as int) == hint - 1 - (yb as int),
                ;
                assert forall|i: int| 0 <= i < out@.len() implies out@[i] == spec_dib_pixel_at(
                    wint,
                    hint,
                    rgba@,
                    i,
                ) by {
                    if i >= 4 * p {
                        assert(i == 4 * p || i == 4 * p + 1 || i == 4 * p + 2 || i == 4 * p + 3);
                    }
                }
            }
        }
        proof {
            assert(4 * (((yb as int) + 1) * (w as int)) == 4 * ((yb as int) * (w as int)) + 4 * (
            w as int)) by (nonlinear_arith);
        }
    }
    proof {
        assert(4 * ((h as int) * (w as int)) == 4 * (w as int) * (h as int)) by (nonlinear_arith);
        assert(out@ =~= spec_dib_pixels(w as int, h as int, rgba@));
    }
    out
}

/// Build the whole clipboard payload for a `w` by `h` RGBA image: the
/// 40-byte header followed by the bottom-up BGRA pixel block.
pub fn encode_dib_payload(w: u32, h: u32, rgba: &Vec<u8>) -> (out: Vec<u8>)
    requires
        rgba@.len() == 4 * (w as int) * (h as int),
        4 * (w as int) * (h as int) <= u32::MAX,
    ensures
        out@ == spec_dib_payload(w, h, rgba@),
{
    let size_image: u32 = (rgba.len()) as u32;
    let mut out: Vec<u8> = Vec::new();
    push_u32_le(&mut out, 40);
    push_u32_le(&mut out, w);
    push_u32_le(&mut out, h);
    push_u16_le(&mut out, 1);
    push_u16_le(&mut out, 32);
    push_u32_le(&mut out, 0);
    push_u32_le(&mut out, size_image);
    push_u32_le(&mut out, 0);
    push_u32_le(&mut out, 0);
    push_u32_le(&mut out, 0);
    push_u32_le(&mut out, 0);
    proof {
        assert(out@ =~= spec_dib_header(w, h, (4 * (w as int) * (h as int)) as u32));
    }
    let mut pixels = encode_dib_pixels(w, h, rgba);
    out.append(&mut pixels);
    proof {
        assert(out@ =~= spec_dib_payload(w, h, rgba@));
    }
    out
}

/// The pixel-block invariant, stated at the source: for every source pixel
/// `(x, y)` the block byte at offset `4 * (w * (h - 1 - y) + x)` holds the
/// pixel's blue channel, the next two its green and red, and the fourth its
/// alpha.
pub proof fn lemma_dib_pixel_block(w: int, h: int, rgba: Seq<u8>, x: int, y: int)
    requires
        1 <= w,
        1 <= h,
        0 <= x < w,
        0 <= y < h,
        rgba.len() == 4 * w * h,
    ensures
        spec_dib_pixels(w, h, rgba).len() == 4 * w * h,
        ({
            let dst = 4 * (w * (h - 1 - y) + x);
            let src = 4 * (w * y + x);
            &&& spec_dib_pixels(w, h, rgba)[dst] == rgba[src + 2]
            &&& spec_dib_pixels(w, h, rgba)[dst + 1] == rgba[src + 1]
            &&& spec_dib_pixels(w, h, rgba)[dst + 2] == rgba[src]
            &&& spec_dib_pixels(w, h, rgba)[dst + 3] == rgba[src + 3]
        }),
{
    let yb = h - 1 - y;
    lemma_pixel_base_bound(w, h, yb, x);
    lemma_pixel_base_bound(w, h, y, x);
    assert(w * yb + x == yb * w + x && w * y + x == y * w + x) by (nonlinear_arith);
    lemma_dib_index(w, h, rgba, yb, x, 0);
    lemma_dib_index(w, h, rgba, yb, x, 1);
    lemma_dib_index(w, h, rgba, yb, x, 2);
    lemma_dib_index(w, h, rgba, yb, x, 3);
}

} // verus!
