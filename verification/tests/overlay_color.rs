use quanthud::color::{byte_hex, color_hex, decode_pixel, PIXEL_FAILED};
use quanthud::error::HudError;
use quanthud::monitor::Monitor;
use quanthud::overlay::{overlay_placement, virtual_desktop_bounds, DesktopBounds};

fn fhd() -> Monitor {
    Monitor { pos_x: 0, pos_y: 0, width: 1920, height: 1080, scale: 100 }
}

fn raised_second() -> Monitor {
    Monitor { pos_x: 1920, pos_y: -240, width: 2560, height: 1440, scale: 125 }
}

#[test]
fn virtual_desktop_seam_two_monitors() {
    let monitors = vec![fhd(), raised_second()];
    let b = virtual_desktop_bounds(&monitors).unwrap();
    assert_eq!(b, DesktopBounds { min_x: 0, min_y: -240, width: 4480, height: 1440 });
}

#[test]
fn overlay_covers_every_monitor() {
    let monitors = vec![
        fhd(),
        raised_second(),
        Monitor { pos_x: -800, pos_y: 300, width: 800, height: 600, scale: 100 },
    ];
    let b = virtual_desktop_bounds(&monitors).unwrap();
    for m in &monitors {
        assert!(b.min_x <= m.pos_x);
        assert!(m.pos_x + m.width as i32 <= b.min_x + b.width as i32);
        assert!(b.min_y <= m.pos_y);
        assert!(m.pos_y + m.height as i32 <= b.min_y + b.height as i32);
    }
}

#[test]
fn overlay_needs_a_monitor() {
    let none: Vec<Monitor> = Vec::new();
    assert_eq!(virtual_desktop_bounds(&none), Err(HudError::NoMonitor));
    assert!(overlay_placement(&none, None).is_err());
}

#[test]
fn overlay_url_carries_primary_offset_and_width() {
    let monitors = vec![fhd(), raised_second()];
    let p = overlay_placement(&monitors, Some(fhd())).unwrap();
    assert_eq!(p.bounds, DesktopBounds { min_x: 0, min_y: -240, width: 4480, height: 1440 });
    assert_eq!(p.primary_offset_x, 0);
    assert_eq!(p.primary_width, 1920);
    assert_eq!(p.url, "/color-picker-overlay?pmx=0&pmw=1920");
}

#[test]
fn overlay_url_with_negative_offset() {
    // A primary monitor left of the overlay's origin yields a negative offset.
    let monitors = vec![fhd()];
    let off_desk = Monitor { pos_x: -500, pos_y: 0, width: 500, height: 500, scale: 100 };
    let p = overlay_placement(&monitors, Some(off_desk)).unwrap();
    assert_eq!(p.primary_offset_x, -500);
    assert_eq!(p.url, "/color-picker-overlay?pmx=-500&pmw=500");
}

#[test]
fn overlay_without_primary_reports_zero() {
    let monitors = vec![raised_second()];
    let p = overlay_placement(&monitors, None).unwrap();
    assert_eq!(p.primary_offset_x, 0 - 1920);
    assert_eq!(p.primary_width, 0);
    assert_eq!(p.url, "/color-picker-overlay?pmx=-1920&pmw=0");
}

#[test]
fn color_pick_returns_lower_case_hex() {
    // Native value 0x00BBGGRR: R=0x33, G=0x22, B=0x11.
    assert_eq!(decode_pixel(0x0011_2233, 0, 0), Ok("#332211".to_string()));
}

#[test]
fn color_hex_edges() {
    assert_eq!(color_hex(0), "#000000");
    assert_eq!(color_hex(0x00FF_FFFF), "#ffffff");
    assert_eq!(color_hex(0x00FF_0000), "#0000ff"); // pure blue in BGR
    assert_eq!(byte_hex(0xAB), "ab");
    assert_eq!(byte_hex(9), "09");
}

#[test]
fn pixel_sentinel_is_failure_not_white() {
    let r = decode_pixel(PIXEL_FAILED, 12, -34);
    match r {
        Err(HudError::NativeCallFailed(api, ctx)) => {
            assert_eq!(api, "GetPixel");
            assert_eq!(ctx, "at (12, -34)");
        }
        other => panic!("expected a native-call failure, got {:?}", other),
    }
    let e = decode_pixel(PIXEL_FAILED, 1, 2).unwrap_err();
    assert_eq!(e.message(), "GetPixel failed: at (1, 2)");
}
