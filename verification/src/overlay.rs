//! Placement of the color-picker overlay across the whole virtual desktop.
//!
//! The overlay must cover every monitor with zero dead space along any
//! seam, so its rectangle is the bounding box of all monitors; the primary
//! monitor's horizontal extent within that box is passed to the UI through
//! the overlay's URL so the instructional text can be centered on the
//! physically primary display.

use vstd::prelude::*;

use crate::error::HudError;
use crate::monitor::Monitor;
use crate::text::{spec_dec_str, spec_int_str, i32_to_string, u32_to_string};

verus! {

/// The bounding box of the virtual desktop: top-left corner (possibly
/// negative) and size, all in physical pixels.
#[derive(Debug, Clone, Copy, PartialEq, Eq, Structural)]
pub struct DesktopBounds {
    pub min_x: i32,
    pub min_y: i32,
    pub width: u32,
    pub height: u32,
}

/// `b` is the bounding box of `monitors`: it covers every monitor, and each
/// of its four edges touches some monitor.
pub open spec fn spec_is_desktop_bounds(monitors: Seq<Monitor>, b: DesktopBounds) -> bool {
    &&& forall|i: int|
        0 <= i < monitors.len() ==> {
            &&& b.min_x <= (#[trigger] monitors[i]).pos_x
            &&& monitors[i].pos_x + monitors[i].width <= b.min_x + b.width
            &&& b.min_y <= monitors[i].pos_y
            &&& monitors[i].pos_y + monitors[i].height <= b.min_y + b.height
        }
    &&& exists|i: int| 0 <= i < monitors.len() && (#[trigger] monitors[i]).pos_x == b.min_x
    &&& exists|i: int|
        0 <= i < monitors.len() && (#[trigger] monitors[i]).pos_x + monitors[i].width == b.min_x
            + b.width
    &&& exists|i: int| 0 <= i < monitors.len() && (#[trigger] monitors[i]).pos_y == b.min_y
    &&& exists|i: int|
        0 <= i < monitors.len() && (#[trigger] monitors[i]).pos_y + monitors[i].height == b.min_y
            + b.height
}

/// Compute the bounding box of the virtual desktop spanned by `monitors`.
pub fn virtual_desktop_bounds(monitors: &Vec<Monitor>) -> (r: Result<DesktopBounds, HudError>)
    requires
        forall|i: int| 0 <= i < monitors.len() ==> (#[trigger] monitors[i]).wf(),
    ensures
        monitors.len() == 0 ==> r == Err::<DesktopBounds, HudError>(HudError::NoMonitor),
        monitors.len() > 0 ==> (match r {
            Ok(b) => spec_is_desktop_bounds(monitors@, b),
            _ => false,
        }),
{
    if monitors.len() == 0 {
        return Err(HudError::NoMonitor);
    }
    let first = monitors[0];
    let mut min_x: i32 = first.pos_x;
    let mut min_y: i32 = first.pos_y;
    let mut max_x: i32 = first.pos_x + first.width as i32;
    let mut max_y: i32 = first.pos_y + first.height as i32;
    let n = monitors.len();
    for k in 1..n
        invariant
            n == monitors.len(),
            forall|i: int| 0 <= i < monitors.len() ==> (#[trigger] monitors[i]).wf(),
            forall|i: int|
                0 <= i < k ==> {
                    &&& min_x <= (#[trigger] monitors[i]).pos_x
                    &&& monitors[i].pos_x + monitors[i].width <= max_x
                    &&& min_y <= monitors[i].pos_y
                    &&& monitors[i].pos_y + monitors[i].height <= max_y
                },
            exists|i: int| 0 <= i < k && (#[trigger] monitors[i]).pos_x == min_x,
            exists|i: int|
                0 <= i < k && (#[trigger] monitors[i]).pos_x + monitors[i].width == max_x,
            exists|i: int| 0 <= i < k && (#[trigger] monitors[i]).pos_y == min_y,
            exists|i: int|
                0 <= i < k && (#[trigger] monitors[i]).pos_y + monitors[i].height == max_y,
            -100_000_000 <= min_x <= 100_000_000,
            -100_000_000 <= min_y <= 100_000_000,
            -100_000_000 <= max_x <= 101_000_000,
            -100_000_000 <= max_y <= 101_000_000,
    {
        let m = monitors[k];
        if m.pos_x < min_x {
            min_x = m.pos_x;
        }
        if m.pos_y < min_y {
            min_y = m.pos_y;
        }
        let right = m.pos_x + m.width as i32;
        if right > max_x {
            max_x = right;
        }
        let bottom = m.pos_y + m.height as i32;
        if bottom > max_y {
            max_y = bottom;
        }
    }
    Ok(
        DesktopBounds {
            min_x,
            min_y,
            width: (max_x - min_x) as u32,
            height: (max_y - min_y) as u32,
        },
    )
}

/// The URL route of the color-picker overlay, carrying the primary
/// monitor's offset and width within the overlay as query parameters.
pub open spec fn spec_overlay_url(pmx: int, pmw: int) -> Seq<char> {
    "/color-picker-overlay?pmx="@ + spec_int_str(pmx) + "&pmw="@ + spec_dec_str(pmw)
}

/// Everything the window layer needs to open the color-picker overlay:
/// where to place it, and the route its web view must load.
#[derive(Debug)]
pub struct OverlayPlacement {
    /// The window rectangle: the virtual desktop's bounding box.
    pub bounds: DesktopBounds,
    /// The primary monitor's left edge relative to the overlay's left edge.
    pub primary_offset_x: i32,
    /// The primary monitor's physical width; zero when no primary is known.
    pub primary_width: u32,
    /// The overlay route with the two query parameters filled in.
    pub url: String,
}

/// Compute the color-picker overlay placement for the given monitors and
/// (optionally) the OS-reported primary monitor.
pub fn overlay_placement(monitors: &Vec<Monitor>, primary: Option<Monitor>) -> (r: Result<
    OverlayPlacement,
    HudError,
>)
    requires
        forall|i: int| 0 <= i < monitors.len() ==> (#[trigger] monitors[i]).wf(),
        primary matches Some(pm) ==> pm.wf(),
    ensures
        monitors.len() == 0 ==> r == Err::<OverlayPlacement, HudError>(HudError::NoMonitor),
        monitors.len() > 0 ==> (match r {
            Ok(p) => {
                &&& spec_is_desktop_bounds(monitors@, p.bounds)
                &&& p.primary_offset_x == (match primary {
                    Some(pm) => pm.pos_x,
                    None => 0,
                }) - p.bounds.min_x
                &&& p.primary_width == (match primary {
                    Some(pm) => pm.width,
                    None => 0u32,
                })
                &&& p.url@ == spec_overlay_url(p.primary_offset_x as int, p.primary_width as int)
            },
            _ => false,
        }),
{
    let bounds = match virtual_desktop_bounds(monitors) {
        Ok(b) => b,
        Err(e) => {
            return Err(e);
        },
    };
    let (primary_left, primary_width) = match primary {
        Some(pm) => (pm.pos_x, pm.width),
        None => (0i32, 0u32),
    };
    proof {
        let i = choose|i: int| 0 <= i < monitors@.len() && (#[trigger] monitors@[i]).pos_x
            == bounds.min_x;
        assert(monitors@[i].wf());
    }
    let primary_offset_x = primary_left - bounds.min_x;
    let mut url = "/color-picker-overlay?pmx=".to_owned();
    url.append(i32_to_string(primary_offset_x).as_str());
    url.append("&pmw=");
    url.append(u32_to_string(primary_width).as_str());
    Ok(OverlayPlacement { bounds, primary_offset_x, primary_width, url })
}

} // verus!
