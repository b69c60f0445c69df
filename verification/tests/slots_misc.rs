use quanthud::config::{config_dir_name, config_file_name, config_text_or_default, ConfigError};
use quanthud::error::HudError;
use quanthud::popup::{
    button_fill_bgr, popup_layout, should_start_runtime, BUTTON_IDLE_BGR, BUTTON_PRESSED_BGR,
};
use quanthud::slots::{ColorSlot, PreviewSlot, RegionSlot};
use quanthud::text::{i32_to_string, u32_to_string, u64_to_string};

#[test]
fn region_slot_drains_on_read() {
    let mut slot = RegionSlot::empty();
    assert_eq!(slot.take(), None);
    let prev = slot.put(Some([10, 20, 300, 400]));
    assert_eq!(prev, None);
    // Two consecutive reads after a single store: the value, then nothing.
    assert_eq!(slot.take(), Some([10, 20, 300, 400]));
    assert_eq!(slot.take(), None);
}

#[test]
fn region_slot_put_overwrites_and_returns_previous() {
    let mut slot = RegionSlot::empty();
    slot.put(Some([1, 2, 3, 4]));
    let prev = slot.put(Some([5, 6, 7, 8]));
    assert_eq!(prev, Some([1, 2, 3, 4]));
    assert_eq!(slot.take(), Some([5, 6, 7, 8]));
}

#[test]
fn color_slot_flattens_and_drains() {
    let mut slot = ColorSlot::empty();
    assert_eq!(slot.take(), None);
    slot.put(Some("#332211".to_string()));
    assert_eq!(slot.take(), Some("#332211".to_string()));
    assert_eq!(slot.take(), None);
    // A cancelled pick stores an explicit nothing and still reads as None.
    slot.put(None);
    assert_eq!(slot.take(), None);
}

#[test]
fn color_slot_clear_discards_stale_result() {
    let mut slot = ColorSlot::empty();
    slot.put(Some("#ffffff".to_string()));
    slot.clear();
    assert_eq!(slot.take(), None);
}

#[test]
fn preview_slot_peek_is_non_draining() {
    let mut slot = PreviewSlot::empty();
    assert_eq!(slot.peek(), None);
    slot.put("/pictures/screenshots/a.png".to_string());
    for _ in 0..5 {
        assert_eq!(slot.peek(), Some("/pictures/screenshots/a.png".to_string()));
    }
    slot.clear();
    assert_eq!(slot.peek(), None);
}

#[test]
fn preview_slot_put_overwrites() {
    let mut slot = PreviewSlot::empty();
    slot.put("first".to_string());
    let prev = slot.put("second".to_string());
    assert_eq!(prev, Some("first".to_string()));
    assert_eq!(slot.peek(), Some("second".to_string()));
}

#[test]
fn config_defaults_to_empty_object() {
    assert_eq!(config_text_or_default(None), "{}");
    assert_eq!(config_text_or_default(Some("{\"a\":1}".to_string())), "{\"a\":1}");
    assert_eq!(config_dir_name(), "quanthub");
    assert_eq!(config_file_name(), "config.json");
}

#[test]
fn config_error_messages() {
    assert_eq!(ConfigError::NoConfigDir.message(), "Failed to get config directory");
    assert_eq!(
        ConfigError::Io("denied".to_string()).message(),
        "IO error: denied"
    );
}

#[test]
fn hud_error_messages() {
    assert_eq!(HudError::NoMonitor.message(), "No monitor found");
    assert_eq!(HudError::MonitorIndexOutOfRange.message(), "Monitor index out of range");
    assert_eq!(HudError::ClipboardBusy.message(), "Failed to open clipboard");
    assert_eq!(
        HudError::PlatformUnsupported("Windows".to_string()).message(),
        "Only supported on: Windows"
    );
    assert_eq!(HudError::ConfigDirUnavailable.message(), "Failed to get config directory");
    assert_eq!(HudError::Io("gone".to_string()).message(), "IO error: gone");
    assert_eq!(HudError::AllocationFailed.message(), "Failed to allocate memory");
    assert_eq!(
        HudError::ImageDecodeFailed("bad magic".to_string()).message(),
        "Failed to open image: bad magic"
    );
    assert_eq!(HudError::NotImplemented.message(), "Not implemented");
}

#[test]
fn popup_layout_anchors_bottom_right() {
    let l = popup_layout(1920, 1080);
    assert_eq!(l.x, 1920 - 340 - 16);
    assert_eq!(l.y, 1080 - 100 - 60);
    assert_eq!((l.width, l.height), (340, 100));
    assert_eq!(l.corner_radius, 16);
    assert_eq!(l.button_x, (340 - 70) / 2);
    assert_eq!(l.button_y, 100 - 28 - 12);
    assert_eq!((l.button_width, l.button_height), (70, 28));
    assert_eq!(l.button_radius, 10);
}

#[test]
fn button_fill_follows_item_state() {
    assert_eq!(button_fill_bgr(false), BUTTON_IDLE_BGR);
    assert_eq!(button_fill_bgr(true), BUTTON_PRESSED_BGR);
    assert_eq!(BUTTON_IDLE_BGR, 0x0044_4444);
    assert_eq!(BUTTON_PRESSED_BGR, 0x0055_5555);
}

#[test]
fn second_instance_never_starts_the_runtime() {
    assert!(should_start_runtime(false, false));
    assert!(!should_start_runtime(false, true));
    assert!(!should_start_runtime(true, false));
    assert!(!should_start_runtime(true, true));
}

#[test]
fn decimal_rendering() {
    assert_eq!(u32_to_string(0), "0");
    assert_eq!(u32_to_string(7), "7");
    assert_eq!(u32_to_string(105), "105");
    assert_eq!(u64_to_string(18_446_744_073_709_551_615), "18446744073709551615");
    assert_eq!(i32_to_string(-1), "-1");
    assert_eq!(i32_to_string(0), "0");
    assert_eq!(i32_to_string(i32::MIN), "-2147483648");
    assert_eq!(i32_to_string(i32::MAX), "2147483647");
}
