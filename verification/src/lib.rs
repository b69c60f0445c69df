//! Native backend logic for an edge-docked heads-up overlay.
//!
//! Monitor geometry, dock rectangles, overlay placement, transient result
//! slots, pixel-color decoding, clipboard bitmap encoding and screenshot
//! indexing, all with verified contracts.  Window-system and operating-system
//! calls live outside this crate; it works on plain values.

use vstd::prelude::*;

pub mod codec;
pub mod color;
pub mod config;
pub mod dib;
pub mod dock;
pub mod error;
pub mod monitor;
pub mod overlay;
pub mod popup;
pub mod screenshots;
pub mod slots;
pub mod text;

verus! {

/// Logical width of the dock's main content area, in CSS pixels.
pub const CONTENT_WIDTH: u32 = 320;

/// Logical width of the tucked trigger strip, in CSS pixels.
pub const TRIGGER_WIDTH: u32 = 20;

/// Logical width of the fully shown dock, in CSS pixels.
pub const TOTAL_WIDTH: u32 = CONTENT_WIDTH + TRIGGER_WIDTH;

/// Logical height of the half-circle trigger tab, in CSS pixels.
pub const HALF_CIRCLE_HEIGHT: u32 = 48;

/// A monitor's DPI scale factor, held in hundredths so that all geometry is
/// integer arithmetic: 100 is 1.0, 125 is 1.25, 200 is 2.0.
pub type ScaleHundredths = u32;

/// `round(v * s / 100)` for a logical size `v` and a scale in hundredths `s`:
/// the physical-pixel size of a logical size on a scaled monitor.
pub open spec fn spec_scale_round(v: int, s: int) -> int {
    (v * s + 50) / 100
}

/// Convert a logical size to physical pixels on a monitor with scale
/// `s` hundredths, rounding to the nearest pixel.
pub fn scale_round(v: u32, s: ScaleHundredths) -> (r: u32)
    requires
        v * s + 50 <= u32::MAX,
    ensures
        r == spec_scale_round(v as int, s as int),
{
    (v * s + 50) / 100
}

} // verus!
