use quanthud::dock::{
    dock_rect, dual_plan, is_tucked, position_plan, setup_plan, show_plan, tuck_plan, DockMode,
    DockPosition, DockRectangle, TriggerStyle, WindowAction,
};
use quanthud::monitor::{monitor_infos, resolve_monitor, work_area_height, Monitor};
use quanthud::scale_round;

fn fhd() -> Monitor {
    Monitor { pos_x: 0, pos_y: 0, width: 1920, height: 1080, scale: 100 }
}

fn qhd_second() -> Monitor {
    Monitor { pos_x: 1920, pos_y: 0, width: 2560, height: 1440, scale: 125 }
}

#[test]
fn scale_round_rounds_to_nearest() {
    assert_eq!(scale_round(20, 100), 20);
    assert_eq!(scale_round(20, 125), 25);
    assert_eq!(scale_round(340, 125), 425);
    assert_eq!(scale_round(48, 125), 60);
    assert_eq!(scale_round(10, 125), 13); // 12.5 rounds up
    assert_eq!(scale_round(340, 110), 374);
    assert_eq!(scale_round(0, 200), 0);
}

#[test]
fn work_area_prefers_sane_os_value() {
    let m = fhd();
    assert_eq!(work_area_height(&m, Some(1040)), 1040);
    // A work area taller than the screen is rejected in favor of the fallback.
    assert_eq!(work_area_height(&m, Some(2000)), 1032);
    // Zero is rejected too.
    assert_eq!(work_area_height(&m, Some(0)), 1032);
    // No OS answer: screen height minus the assumed 48-logical-px taskbar.
    assert_eq!(work_area_height(&m, None), 1032);
    // Scaled monitor: the OS reports logical pixels.
    let m2 = qhd_second();
    assert_eq!(work_area_height(&m2, Some(1000)), 1250);
    assert_eq!(work_area_height(&m2, None), 1440 - 60);
}

#[test]
fn tuck_and_show_round_trip_left_fhd() {
    let m = fhd();
    let wah = work_area_height(&m, None);
    assert_eq!(wah, 1032);

    let setup = setup_plan(&m, wah);
    assert_eq!(setup[0], WindowAction::SetSize { width: 340, height: 1032 });
    assert_eq!(setup[1], WindowAction::SetPosition { x: 0, y: 0 });
    assert_eq!(setup[2], WindowAction::Show);

    let tuck = tuck_plan(&m, DockPosition::Left, TriggerStyle::Column, wah);
    assert_eq!(tuck[0], WindowAction::SetSize { width: 20, height: 1032 });
    assert_eq!(tuck[1], WindowAction::SetPosition { x: 0, y: 0 });

    assert!(is_tucked(20, 100));
    assert!(!is_tucked(21, 100));
    assert!(!is_tucked(340, 100));

    let show = show_plan(&m, DockPosition::Left, wah);
    // Reposition strictly before resize.
    assert!(matches!(show[0], WindowAction::SetPosition { .. }));
    assert!(matches!(show[1], WindowAction::SetSize { .. }));
    assert_eq!(show[0], WindowAction::SetPosition { x: 0, y: 0 });
    assert_eq!(show[1], WindowAction::SetSize { width: 340, height: 1032 });
}

#[test]
fn right_dock_on_scaled_second_monitor() {
    let m = qhd_second();
    let wah = work_area_height(&m, None);
    let show = show_plan(&m, DockPosition::Right, wah);
    assert_eq!(show[0], WindowAction::SetPosition { x: 1920 + 2560 - 425, y: 0 });
    assert_eq!(show[1], WindowAction::SetSize { width: 425, height: wah });
    assert_eq!(1920 + 2560 - 425, 4055);
}

#[test]
fn dock_rect_stays_on_its_monitor() {
    for m in [fhd(), qhd_second()] {
        let wah = work_area_height(&m, None);
        for pos in [DockPosition::Left, DockPosition::Right] {
            for mode in [DockMode::TuckedColumn, DockMode::TuckedHalfCircle, DockMode::Shown] {
                let r = dock_rect(&m, pos, mode, wah);
                assert!(r.origin_x >= m.pos_x);
                assert!(r.origin_x + r.width as i32 <= m.pos_x + m.width as i32);
            }
        }
    }
}

#[test]
fn tucked_widths_match_scaled_constants() {
    let m = qhd_second();
    let wah = work_area_height(&m, None);
    let tucked = dock_rect(&m, DockPosition::Left, DockMode::TuckedColumn, wah);
    assert_eq!(tucked.width, 25);
    let shown = dock_rect(&m, DockPosition::Left, DockMode::Shown, wah);
    assert_eq!(shown.width, 425);
}

#[test]
fn halfcircle_is_centered_within_one_pixel() {
    let m = fhd();
    for wah in [work_area_height(&m, None), 49, 48, 47, 30, 29, 1, 0] {
        let r = dock_rect(&m, DockPosition::Left, DockMode::TuckedHalfCircle, wah);
        assert_eq!(r.height, 48);
        assert_eq!(r.width, 20);
        let top_gap = r.origin_y - m.pos_y;
        let bottom_gap = (m.pos_y + wah as i32) - (r.origin_y + r.height as i32);
        assert!((top_gap - bottom_gap).abs() <= 1);
    }
    let r = dock_rect(&m, DockPosition::Left, DockMode::TuckedHalfCircle, 1032);
    assert_eq!(r.origin_y, (1032 - 48) / 2);
}

#[test]
fn halfcircle_centers_even_in_a_tiny_work_area() {
    // A 30-px work area is smaller than the 48-px tab: the tab still
    // centers, overhanging the top by half the difference.
    let m = fhd();
    assert_eq!(work_area_height(&m, Some(30)), 30);
    let r = dock_rect(&m, DockPosition::Left, DockMode::TuckedHalfCircle, 30);
    assert_eq!(r.origin_y, (30 - 48) / 2);
    assert_eq!(r.origin_y, -9);
    // Truncation toward zero, as the window layer computes it.
    let r2 = dock_rect(&m, DockPosition::Left, DockMode::TuckedHalfCircle, 29);
    assert_eq!(r2.origin_y, -9);
}

#[test]
fn position_only_plan_keeps_size() {
    let m = fhd();
    let plan = position_plan(&m, DockPosition::Right);
    assert_eq!(plan.len(), 1);
    assert_eq!(plan[0], WindowAction::SetPosition { x: 1920 - 340, y: 0 });
}

#[test]
fn dual_plan_sits_a_trigger_width_inside_the_right_edge() {
    let m = fhd();
    let wah = work_area_height(&m, None);
    let plan = dual_plan(&m, wah);
    assert_eq!(plan[0], WindowAction::SetSize { width: 340, height: 1032 });
    assert_eq!(plan[1], WindowAction::SetPosition { x: 1920 - 20, y: 0 });
    assert_eq!(plan[2], WindowAction::Show);
}

#[test]
fn resolve_monitor_by_index_and_fallback() {
    let monitors = vec![fhd(), qhd_second()];
    assert_eq!(resolve_monitor(&monitors, Some(1), None), Ok(qhd_second()));
    assert_eq!(
        resolve_monitor(&monitors, Some(2), None),
        Err(quanthud::error::HudError::MonitorIndexOutOfRange)
    );
    assert_eq!(resolve_monitor(&monitors, None, Some(fhd())), Ok(fhd()));
    assert_eq!(
        resolve_monitor(&monitors, None, None),
        Err(quanthud::error::HudError::NoMonitor)
    );
}

#[test]
fn monitor_listing_names_and_primary_hint() {
    let monitors = vec![fhd(), qhd_second()];
    let infos = monitor_infos(&monitors);
    assert_eq!(infos.len(), 2);
    assert_eq!(infos[0].index, 0);
    assert_eq!(infos[0].name, "Display 1 (1920x1080)");
    assert!(infos[0].is_primary);
    assert_eq!(infos[1].index, 1);
    assert_eq!(infos[1].name, "Display 2 (2560x1440)");
    assert!(!infos[1].is_primary);
    assert_eq!(infos[1].width, 2560);
    assert_eq!(infos[1].height, 1440);
}

#[test]
fn dock_rect_fields_follow_the_formulas() {
    let m = qhd_second();
    let wah = work_area_height(&m, None);
    let r = dock_rect(&m, DockPosition::Right, DockMode::TuckedHalfCircle, wah);
    assert_eq!(
        r,
        DockRectangle {
            origin_x: 1920 + 2560 - 25,
            origin_y: (1380 - 60) / 2,
            width: 25,
            height: 60,
        }
    );
}
