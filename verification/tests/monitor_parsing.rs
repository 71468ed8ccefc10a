//! Monitor data parsing tests.

use hypr_monitor_tui::monitor::{Resolution, Transform};

#[test]
fn test_resolution_to_string() {
    let r = Resolution {
        width: 2560,
        height: 1440,
    };
    assert_eq!(r.display_string(), "2560x1440");
}

#[test]
fn test_transform_cycle() {
    let t = Transform::Normal;
    let t1 = t.next();
    let t2 = t1.next();
    assert_ne!(t, t1);
    assert_ne!(t1, t2);
}

#[test]
fn test_transform_hyprland_str() {
    assert_eq!(Transform::Normal.to_hyprland_str(), "0");
    assert_eq!(Transform::Rotate90.to_hyprland_str(), "1");
}

#[test]
fn test_transform_from_hyprland_str() {
    assert!(matches!(Transform::from_hyprland_str("0"), Transform::Normal));
    assert!(matches!(Transform::from_hyprland_str("1"), Transform::Rotate90));
}

#[test]
fn test_transform_cycle_returns_after_eight() {
    let all = [
        Transform::Normal,
        Transform::Rotate90,
        Transform::Rotate180,
        Transform::Rotate270,
        Transform::Flipped,
        Transform::Flipped90,
        Transform::Flipped180,
        Transform::Flipped270,
    ];
    for t in all {
        let mut cur = t;
        for _ in 0..8 {
            cur = cur.next();
        }
        assert_eq!(cur, t);
    }
}

#[test]
fn test_transform_code_round_trip_all_codes() {
    let all = [
        Transform::Normal,
        Transform::Rotate90,
        Transform::Rotate180,
        Transform::Rotate270,
        Transform::Flipped,
        Transform::Flipped90,
        Transform::Flipped180,
        Transform::Flipped270,
    ];
    for t in all {
        let code = t.to_hyprland_str();
        assert_eq!(Transform::from_hyprland_str(code), t);
    }
}

#[test]
fn test_transform_unrecognized_codes_decode_to_normal() {
    assert_eq!(Transform::from_hyprland_str("8"), Transform::Normal);
    assert_eq!(Transform::from_hyprland_str(""), Transform::Normal);
    assert_eq!(Transform::from_hyprland_str("17"), Transform::Normal);
    assert_eq!(Transform::from_hyprland_str("x"), Transform::Normal);
}

#[test]
fn test_resolution_display_small_values() {
    let r = Resolution { width: 1, height: 0 };
    assert_eq!(r.display_string(), "1x0");
}
