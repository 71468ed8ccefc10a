//! IPC protocol tests: request encoding, response decoding, socket path
//! resolution, and the string parsers at the protocol edge.

use hypr_monitor_tui::ipc::{
    monitors_from_descriptors, parse_position, parse_resolution_refresh, socket_candidate_paths,
    HyprlandClient, MonitorDescriptor,
};
use hypr_monitor_tui::monitor::{Monitor, Position, Resolution, Transform};

fn make_monitor(name: &str, x: i32, y: i32, w: u32, h: u32, hz: u32, scale: u32) -> Monitor {
    let res = Resolution { width: w, height: h };
    Monitor {
        name: name.to_string(),
        description: name.to_string(),
        position: Position { x, y },
        resolution: res,
        available_resolutions: vec![res],
        refresh_rate: hz,
        available_refresh_rates: vec![hz],
        scale,
        transform: Transform::Normal,
        enabled: true,
        primary: false,
    }
}

fn make_descriptor(name: &str, focused: bool) -> MonitorDescriptor {
    MonitorDescriptor {
        name: name.to_string(),
        description: format!("{} description", name),
        x: 0,
        y: 0,
        width: 2560,
        height: 1440,
        refresh_rate: 14400,
        scale: 100,
        transform: Transform::Normal,
        dpms_status: true,
        focused,
    }
}

#[test]
fn test_parse_resolution_refresh() {
    let (res, hz) = parse_resolution_refresh("2560x1440@144").unwrap();
    assert_eq!(res.width, 2560);
    assert_eq!(res.height, 1440);
    assert_eq!(hz, 14400);
}

#[test]
fn test_parse_position() {
    let (x, y) = parse_position("2560_0").unwrap();
    assert_eq!(x, 2560);
    assert_eq!(y, 0);
}

#[test]
fn test_parse_position_separators_and_signs() {
    assert_eq!(parse_position("10,20").unwrap(), (10, 20));
    assert_eq!(parse_position("10x20").unwrap(), (10, 20));
    assert_eq!(parse_position(" -1920 , 0 ").unwrap(), (-1920, 0));
    assert!(parse_position("1020").is_none());
    assert!(parse_position("ax20").is_none());
}

#[test]
fn test_parse_resolution_refresh_without_rate() {
    let (res, hz) = parse_resolution_refresh(" 1920x1080 ").unwrap();
    assert_eq!(res.width, 1920);
    assert_eq!(res.height, 1080);
    assert_eq!(hz, 6000);
}

#[test]
fn test_keyword_request_exact() {
    let client = HyprlandClient::new();
    let m = make_monitor("DP-1", 0, 0, 2560, 1440, 14400, 100);
    let req = client.keyword_request(&m);
    assert_eq!(req, "/keyword monitor DP-1,2560x1440@144.00,0x0,1");
}

#[test]
fn test_query_command() {
    let client = HyprlandClient::new();
    assert_eq!(client.query_monitors_command(), "j/monitors");
}

#[test]
fn test_apply_requests_skip_disabled_keep_order() {
    let mut second = make_monitor("HDMI-A-1", 2560, 0, 1920, 1080, 6000, 100);
    second.enabled = false;
    let monitors = vec![
        make_monitor("DP-1", 0, 0, 2560, 1440, 14400, 100),
        second,
        make_monitor("DP-2", 4480, 0, 1920, 1080, 6000, 125),
    ];
    let client = HyprlandClient::new();
    let reqs = client.apply_requests(&monitors);
    assert_eq!(reqs.len(), 2);
    assert_eq!(reqs[0], "/keyword monitor DP-1,2560x1440@144.00,0x0,1");
    assert_eq!(reqs[1], "/keyword monitor DP-2,1920x1080@60.00,4480x0,1.25");
}

#[test]
fn test_socket_candidate_paths_with_runtime_dir() {
    let paths = socket_candidate_paths(Some("/run/user/1000"), "sig");
    assert_eq!(paths.len(), 2);
    assert_eq!(paths[0], "/run/user/1000/hypr/sig/.socket.sock");
    assert_eq!(paths[1], "/tmp/hypr/sig/.socket.sock");
}

#[test]
fn test_socket_candidate_paths_without_runtime_dir() {
    let paths = socket_candidate_paths(None, "sig");
    assert_eq!(paths.len(), 1);
    assert_eq!(paths[0], "/tmp/hypr/sig/.socket.sock");
}

#[test]
fn test_decode_keeps_reported_primary() {
    let descs = vec![make_descriptor("DP-1", false), make_descriptor("HDMI-A-1", true)];
    let monitors = monitors_from_descriptors(&descs);
    assert_eq!(monitors.len(), 2);
    assert!(!monitors[0].primary);
    assert!(monitors[1].primary);
    assert_eq!(monitors[0].name, "DP-1");
    assert_eq!(monitors[0].available_resolutions, vec![Resolution {
        width: 2560,
        height: 1440
    }]);
    assert_eq!(monitors[0].available_refresh_rates, vec![14400]);
}

#[test]
fn test_decode_designates_first_primary_as_fallback() {
    let descs = vec![make_descriptor("DP-1", false), make_descriptor("HDMI-A-1", false)];
    let monitors = monitors_from_descriptors(&descs);
    assert!(monitors[0].primary);
    assert!(!monitors[1].primary);
    assert!(monitors.iter().any(|m| m.primary));
}

#[test]
fn test_decode_empty_response() {
    let monitors = monitors_from_descriptors(&Vec::new());
    assert!(monitors.is_empty());
}
