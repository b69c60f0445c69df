//! Monitor geometry: the monitor model, monitor resolution by index, the
//! effective work-area height, and the user-facing monitor listing.
//!
//! A monitor is enumerated on demand and identified by its zero-based index.
//! All sizes and positions are physical device pixels on the virtual desktop;
//! the DPI scale factor is held in hundredths so that every computation is
//! exact integer arithmetic.

use vstd::prelude::*;

use crate::error::HudError;
use crate::text::{spec_dec_str, usize_to_string, u32_to_string};
use crate::{spec_scale_round, scale_round, ScaleHundredths};

verus! {

/// Largest physical coordinate magnitude the library accepts; keeps every
/// rectangle computation inside `i32`.
pub const MAX_COORD: i32 = 100_000_000;

/// Largest physical monitor dimension the library accepts.
pub const MAX_DIM: u32 = 1_000_000;

/// Largest scale factor the library accepts, in hundredths (100 times).
pub const MAX_SCALE: u32 = 10_000;

/// The assumed taskbar height in logical pixels, the documented last
/// resort when the OS will not report a work area.
pub const TASKBAR_LOGICAL_HEIGHT: u32 = 48;

/// One monitor of the virtual desktop, as the window layer reports it:
/// physical position (possibly negative), physical size, and DPI scale in
/// hundredths.
#[derive(Debug, Clone, Copy, PartialEq, Eq, Structural)]
pub struct Monitor {
    /// Physical x of the monitor's top-left corner on the virtual desktop.
    pub pos_x: i32,
    /// Physical y of the monitor's top-left corner on the virtual desktop.
    pub pos_y: i32,
    /// Physical width in device pixels.
    pub width: u32,
    /// Physical height in device pixels.
    pub height: u32,
    /// DPI scale factor in hundredths: 100 is 1.0, 125 is 1.25.
    pub scale: ScaleHundredths,
}

impl Monitor {
    /// A monitor the library can do geometry on: positive scale and bounded
    /// coordinates, so that no rectangle computation leaves `i32`.
    pub open spec fn wf(self) -> bool {
        &&& 1 <= self.scale <= MAX_SCALE
        &&& self.width <= MAX_DIM
        &&& self.height <= MAX_DIM
        &&& -MAX_COORD <= self.pos_x <= MAX_COORD
        &&& -MAX_COORD <= self.pos_y <= MAX_COORD
    }
}

/// One entry of the monitor listing handed to the UI.
#[derive(Debug)]
pub struct MonitorInfo {
    /// Zero-based index in enumeration order.
    pub index: usize,
    /// Display name, `"Display N (WxH)"` with the one-based number.
    pub name: String,
    /// Physical width in device pixels.
    pub width: u32,
    /// Physical height in device pixels.
    pub height: u32,
    /// Whether this monitor is assumed primary (the first in enumeration
    /// order).
    pub is_primary: bool,
}

/// A cursor position in physical pixels on the virtual desktop.
#[derive(Debug, Clone, Copy, PartialEq, Eq, Structural)]
pub struct CursorPosition {
    pub x: i32,
    pub y: i32,
}

/// Pick the monitor a command works on: the indexed one when an index is
/// given, else the monitor currently hosting the caller's window.
pub fn resolve_monitor(
    monitors: &Vec<Monitor>,
    monitor_index: Option<usize>,
    current: Option<Monitor>,
) -> (r: Result<Monitor, HudError>)
    ensures
        match monitor_index {
            Some(i) => {
                &&& i < monitors.len() ==> r == Ok::<Monitor, HudError>(monitors[i as int])
                &&& i >= monitors.len() ==> r == Err::<Monitor, HudError>(
                    HudError::MonitorIndexOutOfRange,
                )
            },
            None => match current {
                Some(m) => r == Ok::<Monitor, HudError>(m),
                None => r == Err::<Monitor, HudError>(HudError::NoMonitor),
            },
        },
{
    match monitor_index {
        Some(i) => {
            if i < monitors.len() {
                Ok(monitors[i])
            } else {
                Err(HudError::MonitorIndexOutOfRange)
            }
        },
        None => match current {
            Some(m) => Ok(m),
            None => Err(HudError::NoMonitor),
        },
    }
}

/// The fallback work-area height: the monitor height minus an assumed
/// 48-logical-pixel taskbar, floored at zero.
pub open spec fn spec_fallback_work_height(m: Monitor) -> int {
    let tab = spec_scale_round(TASKBAR_LOGICAL_HEIGHT as int, m.scale as int);
    if m.height >= tab {
        m.height - tab
    } else {
        0
    }
}

/// The effective work-area height in physical pixels, given the work-area
/// height the OS reported in logical pixels (if the query succeeded): the
/// scaled OS value when it is strictly positive and no larger than the
/// monitor, else the fallback.
pub open spec fn spec_work_area_height(m: Monitor, os_logical_height: Option<u32>) -> int {
    match os_logical_height {
        Some(lh) => {
            let phys = spec_scale_round(lh as int, m.scale as int);
            if 0 < phys <= m.height {
                phys
            } else {
                spec_fallback_work_height(m)
            }
        },
        None => spec_fallback_work_height(m),
    }
}

/// Compute the vertical extent usable by the dock, in physical pixels.
/// `os_logical_height` is the primary work-area height the OS reported in
/// logical pixels, or `None` when the query failed or is unavailable.
pub fn work_area_height(m: &Monitor, os_logical_height: Option<u32>) -> (r: u32)
    requires
        m.wf(),
    ensures
        r == spec_work_area_height(*m, os_logical_height),
        r <= m.height,
{
    let fallback: u32 = {
        let tab = scale_round(TASKBAR_LOGICAL_HEIGHT, m.scale);
        if m.height >= tab {
            m.height - tab
        } else {
            0
        }
    };
    match os_logical_height {
        Some(lh) => {
            let lh64 = lh as u64;
            let sc64 = m.scale as u64;
            proof {
                assert(lh64 * sc64 <= 42_949_672_950_000) by (nonlinear_arith)
                    requires
                        lh64 <= u32::MAX,
                        sc64 <= 10_000,
                ;
            }
            let phys: u64 = (lh64 * sc64 + 50) / 100;
            if 0 < phys && phys <= m.height as u64 {
                phys as u32
            } else {
                fallback
            }
        },
        None => fallback,
    }
}

/// The display name shown for monitor `i` (zero-based) of size `w` by `h`:
/// `"Display N (WxH)"` with `N == i + 1`.
pub open spec fn spec_display_name(i: int, w: u32, h: u32) -> Seq<char> {
    "Display "@ + spec_dec_str(i + 1) + " ("@ + spec_dec_str(w as int) + "x"@ + spec_dec_str(
        h as int,
    ) + ")"@
}

/// Build the user-facing monitor listing: index, display name, size, and the
/// first-is-primary hint.
pub fn monitor_infos(monitors: &Vec<Monitor>) -> (r: Vec<MonitorInfo>)
    ensures
        r.len() == monitors.len(),
        forall|i: int|
            0 <= i < monitors.len() ==> {
                &&& (#[trigger] r[i]).index == i
                &&& r[i].width == monitors[i].width
                &&& r[i].height == monitors[i].height
                &&& r[i].is_primary == (i == 0)
                &&& r[i].name@ == spec_display_name(i, monitors[i].width, monitors[i].height)
            },
{
    let mut r: Vec<MonitorInfo> = Vec::new();
    let n = monitors.len();
    for i in 0..n
        invariant
            n == monitors.len(),
            r.len() == i,
            forall|k: int|
                0 <= k < i ==> {
                    &&& (#[trigger] r[k]).index == k
                    &&& r[k].width == monitors[k].width
                    &&& r[k].height == monitors[k].height
                    &&& r[k].is_primary == (k == 0)
                    &&& r[k].name@ == spec_display_name(k, monitors[k].width, monitors[k].height)
                },
    {
        let m = monitors[i];
        let mut name = "Display ".to_owned();
        name.append(usize_to_string(i + 1).as_str());
        name.append(" (");
        name.append(u32_to_string(m.width).as_str());
        name.append("x");
        name.append(u32_to_string(m.height).as_str());
        name.append(")");
        let info = MonitorInfo {
            index: i,
            name,
            width: m.width,
            height: m.height,
            is_primary: i == 0,
        };
        r.push(info);
    }
    r
}

} // verus!
