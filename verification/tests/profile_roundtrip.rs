//! Profile capture and merge tests.

use hypr_monitor_tui::monitor::{Monitor, Position, Resolution, Transform};
use hypr_monitor_tui::profile::{parse_res, MonitorConfig, Profile};

fn make_monitor(name: &str, x: i32, y: i32, w: u32, h: u32, hz: u32) -> Monitor {
    let res = Resolution { width: w, height: h };
    Monitor {
        name: name.to_string(),
        description: format!("{} description", name),
        position: Position { x, y },
        resolution: res,
        available_resolutions: vec![res],
        refresh_rate: hz,
        available_refresh_rates: vec![hz],
        scale: 100,
        transform: Transform::Normal,
        enabled: true,
        primary: false,
    }
}

fn make_entry(name: &str, resolution: Option<&str>) -> MonitorConfig {
    MonitorConfig {
        name: name.to_string(),
        resolution: resolution.map(String::from),
        refresh_rate: None,
        position: [100, 200],
        scale: 150,
        transform: "1".to_string(),
        enabled: true,
        primary: true,
    }
}

#[test]
fn test_parse_res_full_form() {
    let (res, hz) = parse_res("2560x1440@144").unwrap();
    assert_eq!(res.width, 2560);
    assert_eq!(res.height, 1440);
    assert_eq!(hz, 14400);
}

#[test]
fn test_parse_res_fractional_rate() {
    let (_, hz) = parse_res("1920x1080@59.95").unwrap();
    assert_eq!(hz, 5995);
}

#[test]
fn test_parse_res_without_rate_defaults_to_sixty() {
    // The "@" clause may be omitted: the canonical captured form
    // "{width}x{height}" parses, with the refresh rate at 60 hertz.
    let (res, hz) = parse_res("2560x1440").unwrap();
    assert_eq!(res.width, 2560);
    assert_eq!(res.height, 1440);
    assert_eq!(hz, 6000);
}

#[test]
fn test_parse_res_unparsable_rate_defaults() {
    let (_, hz) = parse_res("2560x1440@abc").unwrap();
    assert_eq!(hz, 6000);
}

#[test]
fn test_capture_records_each_monitor_verbatim() {
    let monitors = vec![make_monitor("DP-1", 0, 0, 2560, 1440, 14400)];
    let p = Profile::from_monitors("work".to_string(), None, &monitors);
    assert_eq!(p.name, "work");
    assert_eq!(p.monitors.len(), 1);
    let e = &p.monitors[0];
    assert_eq!(e.name, "DP-1");
    assert_eq!(e.resolution.as_deref(), Some("2560x1440"));
    assert_eq!(e.refresh_rate, Some(14400));
    assert_eq!(e.position, [0, 0]);
    assert_eq!(e.scale, 100);
    assert_eq!(e.transform, "0");
    assert!(e.enabled);
    assert!(p.created_at.is_some());
    assert_eq!(p.created_at, p.modified_at);
}

#[test]
fn test_merge_takes_profile_attributes() {
    let live = vec![make_monitor("DP-1", 0, 0, 2560, 1440, 14400)];
    let p = Profile {
        name: "p".to_string(),
        description: None,
        monitors: vec![make_entry("DP-1", Some("1920x1080@60"))],
        created_at: None,
        modified_at: None,
    };
    let merged = p.to_monitors(&live);
    assert_eq!(merged.len(), 1);
    let m = &merged[0];
    assert_eq!(m.name, "DP-1");
    // Description and the selectable lists come from the live monitor.
    assert_eq!(m.description, "DP-1 description");
    assert_eq!(m.available_resolutions, vec![Resolution { width: 2560, height: 1440 }]);
    assert_eq!(m.available_refresh_rates, vec![14400]);
    // The rest comes from the profile.
    assert_eq!(m.resolution, Resolution { width: 1920, height: 1080 });
    assert_eq!(m.refresh_rate, 6000);
    assert_eq!(m.position.x, 100);
    assert_eq!(m.position.y, 200);
    assert_eq!(m.scale, 150);
    assert_eq!(m.transform, Transform::Rotate90);
    assert!(m.primary);
}

#[test]
fn test_merge_falls_back_to_live_resolution() {
    let live = vec![make_monitor("DP-1", 0, 0, 2560, 1440, 14400)];
    let p = Profile {
        name: "p".to_string(),
        description: None,
        monitors: vec![make_entry("DP-1", Some("not-a-resolution"))],
        created_at: None,
        modified_at: None,
    };
    let merged = p.to_monitors(&live);
    assert_eq!(merged[0].resolution, Resolution { width: 2560, height: 1440 });
    assert_eq!(merged[0].refresh_rate, 14400);
}

#[test]
fn test_merge_applies_captured_resolution() {
    // A captured profile stores "{width}x{height}" without a rate; on
    // merge that resolution applies even when the live one has changed,
    // with the stored rate, or 60 Hz where none is stored.
    let live = vec![make_monitor("DP-1", 0, 0, 1920, 1080, 6000)];
    let p = Profile {
        name: "p".to_string(),
        description: None,
        monitors: vec![make_entry("DP-1", Some("2560x1440"))],
        created_at: None,
        modified_at: None,
    };
    let merged = p.to_monitors(&live);
    assert_eq!(merged[0].resolution, Resolution { width: 2560, height: 1440 });
    assert_eq!(merged[0].refresh_rate, 6000);
}

#[test]
fn test_merge_drops_unknown_names() {
    let live = vec![make_monitor("DP-1", 0, 0, 2560, 1440, 14400)];
    let p = Profile {
        name: "p".to_string(),
        description: None,
        monitors: vec![
            make_entry("HDMI-A-1", Some("1920x1080@60")),
            make_entry("DP-1", Some("1920x1080@60")),
            make_entry("DP-9", None),
        ],
        created_at: None,
        modified_at: None,
    };
    let merged = p.to_monitors(&live);
    // Entries without a live monitor are dropped, and no name appears
    // that is absent from the live snapshot.
    assert_eq!(merged.len(), 1);
    assert_eq!(merged[0].name, "DP-1");
    for m in &merged {
        assert!(live.iter().any(|l| l.name == m.name));
    }
}

#[test]
fn test_merge_stored_refresh_rate_wins() {
    let live = vec![make_monitor("DP-1", 0, 0, 2560, 1440, 14400)];
    let mut entry = make_entry("DP-1", Some("1920x1080@60"));
    entry.refresh_rate = Some(7500);
    let p = Profile {
        name: "p".to_string(),
        description: None,
        monitors: vec![entry],
        created_at: None,
        modified_at: None,
    };
    let merged = p.to_monitors(&live);
    assert_eq!(merged[0].refresh_rate, 7500);
}
