//! Dock rectangles and window plans.
//!
//! Translates the logical docking intent — edge, tuck/show, trigger style —
//! into the physical rectangle the window layer must apply, and into the
//! ordered list of window actions that applies it.  The ordering is part of
//! the contract: a show transition repositions before it resizes, so the
//! expanding window never momentarily straddles an adjacent monitor.

use vstd::prelude::*;

use crate::monitor::Monitor;
use crate::{spec_scale_round, scale_round, HALF_CIRCLE_HEIGHT, TOTAL_WIDTH, TRIGGER_WIDTH};

verus! {

/// Which screen edge the dock sticks to.
#[derive(Debug, Clone, Copy, PartialEq, Eq, Structural)]
pub enum DockPosition {
    Left,
    Right,
}

/// The shape of the tucked dock's trigger zone.
#[derive(Debug, Clone, Copy, PartialEq, Eq, Structural)]
pub enum TriggerStyle {
    /// A full-work-area-height column.
    Column,
    /// A short tab centered vertically in the work area.
    HalfCircle,
}

/// How much of the dock is on screen.
#[derive(Debug, Clone, Copy, PartialEq, Eq, Structural)]
pub enum DockMode {
    TuckedColumn,
    TuckedHalfCircle,
    Shown,
}

/// A physical rectangle on the virtual desktop: absolute origin, size in
/// device pixels.
#[derive(Debug, Clone, Copy, PartialEq, Eq, Structural)]
pub struct DockRectangle {
    pub origin_x: i32,
    pub origin_y: i32,
    pub width: u32,
    pub height: u32,
}

/// One step the window layer must perform, in plan order.
#[derive(Debug, Clone, Copy, PartialEq, Eq, Structural)]
pub enum WindowAction {
    /// Move the window's top-left corner to absolute physical coordinates.
    SetPosition { x: i32, y: i32 },
    /// Resize the window, in physical pixels.
    SetSize { width: u32, height: u32 },
    /// Make the window visible.
    Show,
}

/// Physical width of the tucked trigger strip on a monitor of scale `s`.
pub open spec fn spec_trigger_px(s: int) -> int {
    spec_scale_round(TRIGGER_WIDTH as int, s)
}

/// Physical width of the fully shown dock on a monitor of scale `s`.
pub open spec fn spec_total_px(s: int) -> int {
    spec_scale_round(TOTAL_WIDTH as int, s)
}

/// Physical height of the half-circle trigger tab on a monitor of scale `s`.
pub open spec fn spec_tab_px(s: int) -> int {
    spec_scale_round(HALF_CIRCLE_HEIGHT as int, s)
}

/// The dock's width in `mode` on a monitor of scale `s`: the trigger strip
/// when tucked, the full width when shown.
pub open spec fn spec_dock_width(mode: DockMode, s: int) -> int {
    if mode is Shown {
        spec_total_px(s)
    } else {
        spec_trigger_px(s)
    }
}

/// The dock's height in `mode`, given the work-area height `wah`: the tab
/// height in the half-circle tuck, the work-area height otherwise.
pub open spec fn spec_dock_height(mode: DockMode, s: int, wah: int) -> int {
    if mode is TuckedHalfCircle {
        spec_tab_px(s)
    } else {
        wah
    }
}

/// The vertical offset of the dock from the monitor's top: the half-circle
/// tab is centered in the work area — half of `wah - tab`, rounded toward
/// zero as the window layer computes it, negative when the tab is taller
/// than the work area; everything else starts at the top.
pub open spec fn spec_dock_y_offset(mode: DockMode, s: int, wah: int) -> int {
    if mode is TuckedHalfCircle {
        let h = spec_tab_px(s);
        if wah >= h {
            (wah - h) / 2
        } else {
            -((h - wah) / 2)
        }
    } else {
        0
    }
}

/// The horizontal offset of the dock from the monitor's left edge: zero on
/// the left edge, monitor width minus dock width on the right edge.
pub open spec fn spec_dock_x_offset(m: Monitor, position: DockPosition, mode: DockMode) -> int {
    if position is Right {
        m.width - spec_dock_width(mode, m.scale as int)
    } else {
        0
    }
}

/// The physical rectangle of the dock on monitor `m`, docked at `position`
/// in `mode`, with work-area height `wah`.
pub open spec fn spec_dock_rect(
    m: Monitor,
    position: DockPosition,
    mode: DockMode,
    wah: int,
) -> DockRectangle {
    (DockRectangle {
        origin_x: (m.pos_x + spec_dock_x_offset(m, position, mode)) as i32,
        origin_y: (m.pos_y + spec_dock_y_offset(mode, m.scale as int, wah)) as i32,
        width: spec_dock_width(mode, m.scale as int) as u32,
        height: spec_dock_height(mode, m.scale as int, wah) as u32,
    })
}

/// Compute the dock rectangle for monitor `m`, edge `position`, mode `mode`
/// and work-area height `wah`.
pub fn dock_rect(m: &Monitor, position: DockPosition, mode: DockMode, wah: u32) -> (r:
    DockRectangle)
    requires
        m.wf(),
        wah <= m.height,
    ensures
        r == spec_dock_rect(*m, position, mode, wah as int),
{
    let s = m.scale;
    let width: u32 = match mode {
        DockMode::Shown => scale_round(TOTAL_WIDTH, s),
        _ => scale_round(TRIGGER_WIDTH, s),
    };
    let height: u32 = match mode {
        DockMode::TuckedHalfCircle => scale_round(HALF_CIRCLE_HEIGHT, s),
        _ => wah,
    };
    let y_off: i32 = match mode {
        DockMode::TuckedHalfCircle => {
            if wah >= height {
                ((wah - height) / 2) as i32
            } else {
                -(((height - wah) / 2) as i32)
            }
        },
        _ => 0,
    };
    let x_off: i32 = match position {
        DockPosition::Right => m.width as i32 - width as i32,
        DockPosition::Left => 0,
    };
    DockRectangle {
        origin_x: m.pos_x + x_off,
        origin_y: m.pos_y + y_off,
        width,
        height,
    }
}

/// The dock never leaves its monitor horizontally: as long as the dock is no
/// wider than the monitor, the rectangle's left edge is at or right of the
/// monitor's left edge and its right edge is at or left of the monitor's
/// right edge, for every edge and mode.
pub proof fn lemma_dock_rect_within_monitor(
    m: Monitor,
    position: DockPosition,
    mode: DockMode,
    wah: int,
)
    requires
        m.wf(),
        0 <= wah <= m.height,
        spec_dock_width(mode, m.scale as int) <= m.width,
    ensures
        spec_dock_rect(m, position, mode, wah).origin_x >= m.pos_x,
        spec_dock_rect(m, position, mode, wah).origin_x + spec_dock_rect(
            m,
            position,
            mode,
            wah,
        ).width <= m.pos_x + m.width,
{
}

/// The tucked dock is exactly the scaled trigger strip wide, and the shown
/// dock exactly the scaled full width, whatever the edge and work area.
pub proof fn lemma_dock_widths(m: Monitor, position: DockPosition, wah: int)
    requires
        m.wf(),
        0 <= wah <= m.height,
    ensures
        spec_dock_rect(m, position, DockMode::TuckedColumn, wah).width == spec_trigger_px(
            m.scale as int,
        ),
        spec_dock_rect(m, position, DockMode::TuckedHalfCircle, wah).width == spec_trigger_px(
            m.scale as int,
        ),
        spec_dock_rect(m, position, DockMode::Shown, wah).width == spec_total_px(m.scale as int),
{
}

/// The half-circle tab is vertically centered in the work area to within one
/// pixel, for every work-area height: the gap above it and the gap below it
/// differ by at most 1 (both gaps are negative when the tab is taller than
/// the work area).
pub proof fn lemma_halfcircle_centered(m: Monitor, position: DockPosition, wah: int)
    requires
        m.wf(),
        0 <= wah <= m.height,
    ensures
        ({
            let r = spec_dock_rect(m, position, DockMode::TuckedHalfCircle, wah);
            let top_gap = r.origin_y - m.pos_y;
            let bottom_gap = (m.pos_y + wah) - (r.origin_y + r.height);
            -1 <= bottom_gap - top_gap <= 1
        }),
{
}

/// Shrink the dock to its trigger zone: resize, then move to the edge.
pub fn tuck_plan(m: &Monitor, position: DockPosition, style: TriggerStyle, wah: u32) -> (r: Vec<
    WindowAction,
>)
    requires
        m.wf(),
        wah <= m.height,
    ensures
        ({
            let mode = if style is HalfCircle {
                DockMode::TuckedHalfCircle
            } else {
                DockMode::TuckedColumn
            };
            let rect = spec_dock_rect(*m, position, mode, wah as int);
            &&& r@.len() == 2
            &&& r@[0] == (WindowAction::SetSize { width: rect.width, height: rect.height })
            &&& r@[1] == (WindowAction::SetPosition { x: rect.origin_x, y: rect.origin_y })
        }),
{
    let mode = match style {
        TriggerStyle::HalfCircle => DockMode::TuckedHalfCircle,
        TriggerStyle::Column => DockMode::TuckedColumn,
    };
    let rect = dock_rect(m, position, mode, wah);
    let mut r: Vec<WindowAction> = Vec::new();
    r.push(WindowAction::SetSize { width: rect.width, height: rect.height });
    r.push(WindowAction::SetPosition { x: rect.origin_x, y: rect.origin_y });
    r
}

/// Expand the dock to its full width: move first, resize second, so that the
/// expansion never momentarily straddles an adjacent monitor.
pub fn show_plan(m: &Monitor, position: DockPosition, wah: u32) -> (r: Vec<WindowAction>)
    requires
        m.wf(),
        wah <= m.height,
    ensures
        ({
            let rect = spec_dock_rect(*m, position, DockMode::Shown, wah as int);
            &&& r@.len() == 2
            &&& r@[0] == (WindowAction::SetPosition { x: rect.origin_x, y: rect.origin_y })
            &&& r@[1] == (WindowAction::SetSize { width: rect.width, height: rect.height })
        }),
{
    let rect = dock_rect(m, position, DockMode::Shown, wah);
    let mut r: Vec<WindowAction> = Vec::new();
    r.push(WindowAction::SetPosition { x: rect.origin_x, y: rect.origin_y });
    r.push(WindowAction::SetSize { width: rect.width, height: rect.height });
    r
}

/// Initial setup: size the dock to full width and work-area height, place it
/// at the monitor's left edge, then show it.
pub fn setup_plan(m: &Monitor, wah: u32) -> (r: Vec<WindowAction>)
    requires
        m.wf(),
        wah <= m.height,
    ensures
        ({
            let rect = spec_dock_rect(*m, DockPosition::Left, DockMode::Shown, wah as int);
            &&& r@.len() == 3
            &&& r@[0] == (WindowAction::SetSize { width: rect.width, height: rect.height })
            &&& r@[1] == (WindowAction::SetPosition { x: rect.origin_x, y: rect.origin_y })
            &&& r@[2] == WindowAction::Show
        }),
{
    let rect = dock_rect(m, DockPosition::Left, DockMode::Shown, wah);
    let mut r: Vec<WindowAction> = Vec::new();
    r.push(WindowAction::SetSize { width: rect.width, height: rect.height });
    r.push(WindowAction::SetPosition { x: rect.origin_x, y: rect.origin_y });
    r.push(WindowAction::Show);
    r
}

/// Reposition the dock to an edge without resizing it; the horizontal
/// placement assumes the shown width.
pub fn position_plan(m: &Monitor, position: DockPosition) -> (r: Vec<WindowAction>)
    requires
        m.wf(),
    ensures
        ({
            let rect = spec_dock_rect(*m, position, DockMode::Shown, 0);
            &&& r@.len() == 1
            &&& r@[0] == (WindowAction::SetPosition { x: rect.origin_x, y: rect.origin_y })
        }),
{
    let rect = dock_rect(m, position, DockMode::Shown, 0);
    let mut r: Vec<WindowAction> = Vec::new();
    r.push(WindowAction::SetPosition { x: rect.origin_x, y: rect.origin_y });
    r
}

/// Plan for the twin dock: full size, placed so that its left edge sits a
/// trigger-strip's width left of the monitor's right edge, then shown.
pub fn dual_plan(m: &Monitor, wah: u32) -> (r: Vec<WindowAction>)
    requires
        m.wf(),
        wah <= m.height,
    ensures
        r@.len() == 3,
        r@[0] == (WindowAction::SetSize {
            width: spec_total_px(m.scale as int) as u32,
            height: wah,
        }),
        r@[1] == (WindowAction::SetPosition {
            x: (m.pos_x + m.width - spec_trigger_px(m.scale as int)) as i32,
            y: m.pos_y,
        }),
        r@[2] == WindowAction::Show,
{
    let total = scale_round(TOTAL_WIDTH, m.scale);
    let trigger = scale_round(TRIGGER_WIDTH, m.scale);
    let mut r: Vec<WindowAction> = Vec::new();
    r.push(WindowAction::SetSize { width: total, height: wah });
    r.push(WindowAction::SetPosition { x: m.pos_x + (m.width as i32 - trigger as i32), y: m.pos_y });
    r.push(WindowAction::Show);
    r
}

/// Whether a dock with the given outer width counts as tucked on a monitor
/// of scale `s`: no wider than the trigger strip.
pub fn is_tucked(outer_width: u32, s: u32) -> (r: bool)
    requires
        1 <= s <= 10_000,
    ensures
        r == (outer_width <= spec_trigger_px(s as int)),
{
    outer_width <= scale_round(TRIGGER_WIDTH, s)
}

} // verus!
