//! Position/snap calculation tests.

use hypr_monitor_tui::layout::{monitor_cell, scale_and_bounds};
use hypr_monitor_tui::monitor::{Monitor, Position, Resolution, Transform};

#[test]
fn test_position_bounds() {
    let positions = [(0, 0), (2560, 0), (0, 1440)];
    let min_x = positions.iter().map(|p| p.0).min().unwrap();
    let max_x = positions.iter().map(|p| p.0).max().unwrap();
    let min_y = positions.iter().map(|p| p.1).min().unwrap();
    let max_y = positions.iter().map(|p| p.1).max().unwrap();
    assert_eq!(min_x, 0);
    assert_eq!(max_x, 2560);
    assert_eq!(min_y, 0);
    assert_eq!(max_y, 1440);
}

#[test]
fn test_scale_fit() {
    let total_w = 2560 + 1920;
    let total_h = 1440;
    let area_w = 80f32;
    let area_h = 24f32;
    let scale_x = (area_w - 4.0) / total_w as f32;
    let scale_y = (area_h - 2.0) / total_h as f32;
    let scale = scale_x.min(scale_y).min(1.0).max(0.1);
    assert!(scale > 0.0);
    assert!(scale <= 1.0);
}

fn make_monitor(name: &str, x: i32, y: i32, w: u32, h: u32) -> Monitor {
    let res = Resolution { width: w, height: h };
    Monitor {
        name: name.to_string(),
        description: name.to_string(),
        position: Position { x, y },
        resolution: res,
        available_resolutions: vec![res],
        refresh_rate: 6000,
        available_refresh_rates: vec![6000],
        scale: 100,
        transform: Transform::Normal,
        enabled: true,
        primary: false,
    }
}

#[test]
fn test_layout_two_monitors_fit_in_region() {
    let monitors = vec![
        make_monitor("DP-1", 0, 0, 2560, 1440),
        make_monitor("HDMI-A-1", 2560, 0, 1920, 1080),
    ];
    let fit = scale_and_bounds(&monitors, 80, 24);
    assert_eq!(fit.min_x, 0);
    assert_eq!(fit.min_y, 0);
    assert_eq!(fit.max_x, 4480);
    assert_eq!(fit.max_y, 1440);
    // scale is positive and no tighter than either axis allows:
    // 80*1000/4480 = 17, 24*1000/1440 = 16.
    assert_eq!(fit.scale_milli, 16);
    assert!(fit.scale_milli >= 10);
    // Every rendered rectangle stays inside the region.
    for m in &monitors {
        let (x, y, w, h) = monitor_cell(m, &fit, 80, 24).unwrap();
        assert!(x + w <= 80);
        assert!(y + h <= 24);
        assert!(w > 0 && h > 0);
    }
}

#[test]
fn test_layout_empty_snapshot() {
    let fit = scale_and_bounds(&Vec::new(), 80, 24);
    assert_eq!(fit.scale_milli, 1000);
    assert_eq!(fit.min_x, 0);
    assert_eq!(fit.min_y, 0);
    assert_eq!(fit.max_x, 0);
    assert_eq!(fit.max_y, 0);
}

#[test]
fn test_layout_degenerate_monitor() {
    // A single zero-size monitor: extents floored at one, scale clamped
    // to the upper bound rather than dividing by zero.
    let monitors = vec![make_monitor("DP-1", 5, 5, 0, 0)];
    let fit = scale_and_bounds(&monitors, 80, 24);
    assert_eq!(fit.min_x, 5);
    assert_eq!(fit.max_x, 5);
    assert_eq!(fit.scale_milli, 10000);
}

#[test]
fn test_layout_negative_positions() {
    let monitors = vec![
        make_monitor("DP-1", -1920, 0, 1920, 1080),
        make_monitor("DP-2", 0, 0, 1920, 1080),
    ];
    let fit = scale_and_bounds(&monitors, 80, 24);
    assert_eq!(fit.min_x, -1920);
    assert_eq!(fit.max_x, 1920);
    for m in &monitors {
        let (x, y, w, h) = monitor_cell(m, &fit, 80, 24).unwrap();
        assert!(x + w <= 80);
        assert!(y + h <= 24);
    }
}

#[test]
fn test_monitor_cell_minimum_box() {
    // A tiny monitor still renders at least the minimum box size.
    let monitors = vec![
        make_monitor("DP-1", 0, 0, 2560, 1440),
        make_monitor("TINY", 2560, 0, 64, 64),
    ];
    let fit = scale_and_bounds(&monitors, 80, 24);
    let (_, _, w, h) = monitor_cell(&monitors[1], &fit, 80, 24).unwrap();
    assert!(w >= 12 || w == 80 - (2560 * fit.scale_milli as i64 / 1000) as u16);
    assert!(h >= 4);
}
