//! Config generation tests.

use hypr_monitor_tui::genconfig::{generate_config, generate_config_lines};
use hypr_monitor_tui::monitor::{Monitor, Position, Resolution, Transform};

fn make_monitor(name: &str, x: i32, y: i32, w: u32, h: u32, hz: u32, scale: u32) -> Monitor {
    let res = Resolution { width: w, height: h };
    Monitor {
        name: name.to_string(),
        description: name.to_string(),
        position: Position { x, y },
        resolution: res,
        available_resolutions: vec![res],
        refresh_rate: hz,
        available_refresh_rates: vec![hz],
        scale,
        transform: Transform::Normal,
        enabled: true,
        primary: name == "DP-1",
    }
}

#[test]
fn test_generate_config_single_monitor() {
    let monitors = vec![make_monitor("DP-1", 0, 0, 2560, 1440, 14400, 100)];
    let out = generate_config(&monitors);
    assert!(out.contains("monitor=DP-1"));
    assert!(out.contains("2560x1440"));
    assert!(out.contains("144.00"));
    assert!(out.contains("0x0"));
    assert!(out.contains(",1"));
}

#[test]
fn test_generate_config_two_monitors() {
    let monitors = vec![
        make_monitor("DP-1", 0, 0, 2560, 1440, 14400, 100),
        make_monitor("HDMI-A-1", 2560, 0, 1920, 1080, 6000, 100),
    ];
    let out = generate_config(&monitors);
    assert!(out.contains("DP-1"));
    assert!(out.contains("HDMI-A-1"));
    assert!(out.contains("2560x0"));
}

#[test]
fn test_generate_config_disabled_omitted() {
    let mut m = make_monitor("DP-1", 0, 0, 1920, 1080, 6000, 100);
    m.enabled = false;
    let monitors = vec![m];
    let out = generate_config(&monitors);
    assert!(!out.contains("monitor=DP-1"));
}

#[test]
fn test_generate_config_exact_line() {
    let monitors = vec![make_monitor("DP-1", 0, 0, 2560, 1440, 14400, 100)];
    let out = generate_config(&monitors);
    assert_eq!(out, "monitor=DP-1,2560x1440@144.00,0x0,1\n");
}

#[test]
fn test_generate_config_transform_clause() {
    let mut m = make_monitor("DP-1", 0, 0, 2560, 1440, 14400, 100);
    m.transform = Transform::Rotate90;
    let out = generate_config(&vec![m]);
    assert_eq!(out, "monitor=DP-1,2560x1440@144.00,0x0,1,transform,1\n");
}

#[test]
fn test_generate_config_scale_trimmed() {
    let m = make_monitor("DP-1", 0, 0, 2560, 1440, 14400, 125);
    let out = generate_config(&vec![m]);
    assert!(out.contains(",1.25"));
    let m2 = make_monitor("DP-1", 0, 0, 2560, 1440, 14400, 150);
    let out2 = generate_config(&vec![m2]);
    assert!(out2.contains(",1.5"));
    assert!(!out2.contains(",1.50"));
}

#[test]
fn test_generate_config_negative_position() {
    let m = make_monitor("DP-1", -1920, -200, 1920, 1080, 6000, 100);
    let out = generate_config(&vec![m]);
    assert!(out.contains(",-1920x-200,"));
}

#[test]
fn test_generate_config_lines_one_per_enabled() {
    let mut disabled = make_monitor("HDMI-A-1", 2560, 0, 1920, 1080, 6000, 100);
    disabled.enabled = false;
    let monitors = vec![
        make_monitor("DP-1", 0, 0, 2560, 1440, 14400, 100),
        disabled,
        make_monitor("DP-2", 4480, 0, 1920, 1080, 6000, 100),
    ];
    let lines = generate_config_lines(&monitors);
    assert_eq!(lines.len(), 2);
    assert!(lines[0].starts_with("monitor=DP-1,"));
    assert!(lines[1].starts_with("monitor=DP-2,"));
}
