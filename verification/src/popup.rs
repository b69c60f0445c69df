//! Geometry and palette of the native notification popup, and the
//! single-instance launch decision.
//!
//! The popup itself is drawn by the platform layer; this module fixes where
//! every rectangle goes and which color fills it, so the drawing code has
//! nothing left to decide.

use vstd::prelude::*;

verus! {

/// Popup width in physical pixels.
pub const POPUP_WIDTH: u32 = 340;

/// Popup height in physical pixels.
pub const POPUP_HEIGHT: u32 = 100;

/// OK button width in physical pixels.
pub const BUTTON_WIDTH: u32 = 70;

/// OK button height in physical pixels.
pub const BUTTON_HEIGHT: u32 = 28;

/// The popup's background fill, `#1a1a20` stored as the native BGR value.
pub const POPUP_BACKGROUND_BGR: u32 = 0x0020_1a1a;

/// The popup's text color, white, as the native BGR value.
pub const POPUP_TEXT_BGR: u32 = 0x00FF_FFFF;

/// The OK button fill when idle, `#444444`.
pub const BUTTON_IDLE_BGR: u32 = 0x0044_4444;

/// The OK button fill while selected or pressed, `#555555`.
pub const BUTTON_PRESSED_BGR: u32 = 0x0055_5555;

/// Where the popup and its OK button go, in physical pixels.  The popup is
/// anchored at the bottom-right of the primary screen with a 16-pixel
/// horizontal and 60-pixel vertical inset; the button is horizontally
/// centered and sits 12 pixels above the popup's bottom edge.
#[derive(Debug, Clone, Copy, PartialEq, Eq, Structural)]
pub struct PopupLayout {
    /// Popup left edge, absolute.
    pub x: i32,
    /// Popup top edge, absolute.
    pub y: i32,
    /// Popup width.
    pub width: u32,
    /// Popup height.
    pub height: u32,
    /// Corner radius of the popup's rounded-rect region.
    pub corner_radius: u32,
    /// Button left edge, relative to the popup.
    pub button_x: i32,
    /// Button top edge, relative to the popup.
    pub button_y: i32,
    /// Button width.
    pub button_width: u32,
    /// Button height.
    pub button_height: u32,
    /// Corner radius of the button's rounded-rect region.
    pub button_radius: u32,
}

/// Compute the popup layout for a primary screen of the given physical
/// size.
pub fn popup_layout(screen_width: i32, screen_height: i32) -> (r: PopupLayout)
    requires
        0 <= screen_width <= 100_000_000,
        0 <= screen_height <= 100_000_000,
    ensures
        r.x == screen_width - POPUP_WIDTH - 16,
        r.y == screen_height - POPUP_HEIGHT - 60,
        r.width == POPUP_WIDTH,
        r.height == POPUP_HEIGHT,
        r.corner_radius == 16,
        r.button_x == (POPUP_WIDTH - BUTTON_WIDTH) / 2,
        r.button_y == POPUP_HEIGHT - BUTTON_HEIGHT - 12,
        r.button_width == BUTTON_WIDTH,
        r.button_height == BUTTON_HEIGHT,
        r.button_radius == 10,
{
    PopupLayout {
        x: screen_width - POPUP_WIDTH as i32 - 16,
        y: screen_height - POPUP_HEIGHT as i32 - 60,
        width: POPUP_WIDTH,
        height: POPUP_HEIGHT,
        corner_radius: 16,
        button_x: ((POPUP_WIDTH - BUTTON_WIDTH) / 2) as i32,
        button_y: (POPUP_HEIGHT - BUTTON_HEIGHT - 12) as i32,
        button_width: BUTTON_WIDTH,
        button_height: BUTTON_HEIGHT,
        button_radius: 10,
    }
}

/// The fill the OK button gets for the given item state.
pub fn button_fill_bgr(pressed: bool) -> (c: u32)
    ensures
        c == if pressed {
            BUTTON_PRESSED_BGR
        } else {
            BUTTON_IDLE_BGR
        },
{
    if pressed {
        BUTTON_PRESSED_BGR
    } else {
        BUTTON_IDLE_BGR
    }
}

/// The single-instance gate's decision: the main runtime starts exactly
/// when the named kernel primitive was created fresh — neither the creation
/// call failed nor did the name already exist.  Otherwise the caller shows
/// the already-running popup and returns without starting the runtime.
pub fn should_start_runtime(create_failed: bool, already_running: bool) -> (b: bool)
    ensures
        b == (!create_failed && !already_running),
{
    !create_failed && !already_running
}

} // verus!
