//! The image and transport codec boundary.
//!
//! Decoding, thumbnailing and base64 are done by outside crates; each call
//! sits behind one trusted wrapper whose contract names its result, and
//! everything around the calls — size checks, clipboard payload assembly,
//! error mapping — is verified.

use vstd::prelude::*;

use base64::Engine;

use crate::dib::{spec_dib_payload, encode_dib_payload};
use crate::error::HudError;

verus! {

/// What the image codec decodes a byte buffer to: `None` when the bytes are
/// not a decodable image, else the width, height and 8-bit RGBA pixels.
/// The result depends on the bytes alone.
pub uninterp spec fn decoded_rgba(data: Seq<u8>) -> Option<(u32, u32, Seq<u8>)>;

/// What the image codec produces when it thumbnails a byte buffer to fit
/// within `max_dim` by `max_dim` (preserving aspect ratio) and re-encodes
/// the result as PNG: `None` when decoding or re-encoding fails.  The
/// result depends on the bytes and the bound alone.
pub uninterp spec fn thumbnail_png_of(data: Seq<u8>, max_dim: u32) -> Option<Seq<u8>>;

/// The standard-alphabet, padded base64 rendering of a byte string.
pub uninterp spec fn base64_of(data: Seq<u8>) -> Seq<char>;

/// Relies on `image::load_from_memory` and `DynamicImage::to_rgba8`:
/// decode a byte buffer to 8-bit RGBA.  Decoding is deterministic in the
/// bytes, and the RGBA buffer holds four bytes per pixel.
#[verifier::external_body]
fn decode_rgba(data: &[u8]) -> (r: Result<(u32, u32, Vec<u8>), String>)
    ensures
        match decoded_rgba(data@) {
            Some(t) => match r {
                Ok(v) => v.0 == t.0 && v.1 == t.1 && v.2@ == t.2 && v.2@.len() == 4 * (
                v.0 as int) * (v.1 as int),
                Err(_) => false,
            },
            None => r is Err,
        },
{
    match image::load_from_memory(data) {
        Ok(img) => {
            let rgba = img.to_rgba8();
            let (w, h) = (rgba.width(), rgba.height());
            Ok((w, h, rgba.into_raw()))
        },
        Err(e) => Err(e.to_string()),
    }
}

/// Relies on `image::load_from_memory`, `DynamicImage::thumbnail` and
/// `DynamicImage::write_to` with the PNG format: decode, shrink to fit
/// within `max_dim` square preserving aspect, re-encode as PNG in memory.
/// The result depends on the bytes and the bound alone.
#[verifier::external_body]
fn thumbnail_png(data: &[u8], max_dim: u32) -> (r: Result<Vec<u8>, String>)
    ensures
        match thumbnail_png_of(data@, max_dim) {
            Some(png) => match r {
                Ok(v) => v@ == png,
                Err(_) => false,
            },
            None => r is Err,
        },
{
    let img = image::load_from_memory(data).map_err(|e| e.to_string())?;
    let thumb = img.thumbnail(max_dim, max_dim);
    let mut buf = std::io::Cursor::new(Vec::new());
    thumb.write_to(&mut buf, image::ImageFormat::Png).map_err(|e| e.to_string())?;
    Ok(buf.into_inner())
}

/// Relies on `base64::Engine::encode` with the standard-alphabet padded
/// engine: four output characters for every three input bytes, the last
/// group padded.
#[verifier::external_body]
fn base64_encode(data: &[u8]) -> (r: String)
    requires
        4 * ((data@.len() + 2) / 3) <= usize::MAX,
    ensures
        r@ == base64_of(data@),
        r@.len() == 4 * ((data@.len() + 2) / 3),
{
    base64::engine::general_purpose::STANDARD.encode(data)
}

/// The result of a screen capture as handed to the UI: the PNG bytes in
/// base64, and the captured size in physical pixels.
#[derive(Debug)]
pub struct CaptureResult {
    pub image_base64: String,
    pub width: u32,
    pub height: u32,
}

/// Encode raw file bytes as base64 for transport to the UI.  Only a buffer
/// whose base64 rendering would not fit in memory is refused.
pub fn bytes_to_base64(data: &Vec<u8>) -> (r: Result<String, HudError>)
    ensures
        4 * ((data@.len() + 2) / 3) <= usize::MAX ==> (match r {
            Ok(s) => s@ == base64_of(data@),
            Err(_) => false,
        }),
        4 * ((data@.len() + 2) / 3) > usize::MAX ==> r == Err::<String, HudError>(
            HudError::AllocationFailed,
        ),
{
    let len = data.len();
    let groups = len / 3 + if len % 3 != 0 {
        1
    } else {
        0
    };
    proof {
        assert(groups == (data@.len() + 2) / 3);
    }
    if groups <= usize::MAX / 4 {
        Ok(base64_encode(data.as_slice()))
    } else {
        Err(HudError::AllocationFailed)
    }
}

/// Produce the base64 PNG thumbnail of an image file's bytes, fitting
/// within `max_dim` by `max_dim`: the thumbnail the UI shows in the
/// screenshot list.
pub fn screenshot_thumbnail_base64(data: &Vec<u8>, max_dim: u32) -> (r: Result<String, HudError>)
    ensures
        match thumbnail_png_of(data@, max_dim) {
            None => r matches Err(e) && e matches HudError::ImageDecodeFailed(_),
            Some(png) => {
                if 4 * ((png.len() + 2) / 3) <= usize::MAX {
                    match r {
                        Ok(s) => s@ == base64_of(png),
                        Err(_) => false,
                    }
                } else {
                    r == Err::<String, HudError>(HudError::AllocationFailed)
                }
            },
        },
{
    match thumbnail_png(data.as_slice(), max_dim) {
        Ok(png) => bytes_to_base64(&png),
        Err(msg) => Err(HudError::ImageDecodeFailed(msg)),
    }
}

/// Build the clipboard bitmap payload from an image file's bytes: decode
/// to RGBA and encode as a bottom-up BGRA DIB with its 40-byte header.
/// Only an image too large for the header's 32-bit fields is refused after
/// a successful decode.
pub fn clipboard_dib_payload(data: &Vec<u8>) -> (r: Result<Vec<u8>, HudError>)
    ensures
        match decoded_rgba(data@) {
            None => r matches Err(e) && e matches HudError::ImageDecodeFailed(_),
            Some(t) => {
                if t.0 <= i32::MAX && t.1 <= i32::MAX && 4 * (t.0 as int) * (t.1 as int)
                    <= u32::MAX {
                    match r {
                        Ok(v) => v@ == spec_dib_payload(t.0, t.1, t.2),
                        Err(_) => false,
                    }
                } else {
                    r == Err::<Vec<u8>, HudError>(HudError::AllocationFailed)
                }
            },
        },
{
    let (w, h, rgba) = match decode_rgba(data.as_slice()) {
        Ok(t) => t,
        Err(msg) => {
            return Err(HudError::ImageDecodeFailed(msg));
        },
    };
    let wh: u64 = {
        proof {
            assert((w as u64) * (h as u64) <= 0xFFFF_FFFFu64 * 0xFFFF_FFFFu64) by (nonlinear_arith)
                requires
                    w <= u32::MAX,
                    h <= u32::MAX,
            ;
        }
        (w as u64) * (h as u64)
    };
    if w <= 0x7FFF_FFFF && h <= 0x7FFF_FFFF && wh <= 0x3FFF_FFFF {
        proof {
            assert(4 * (w as int) * (h as int) == 4 * ((w as int) * (h as int)))
                by (nonlinear_arith);
        }
        Ok(encode_dib_payload(w, h, &rgba))
    } else {
        proof {
            assert(4 * (w as int) * (h as int) == 4 * ((w as int) * (h as int)))
                by (nonlinear_arith);
        }
        Err(HudError::AllocationFailed)
    }
}

} // verus!
