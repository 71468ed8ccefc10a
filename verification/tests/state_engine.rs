//! State and history engine tests.

use hypr_monitor_tui::monitor::{Monitor, Position, Resolution, Transform};
use hypr_monitor_tui::state::{App, AppMode, ConfirmAction, EditField, Key, KeyAction};

fn make_monitor(name: &str, x: i32) -> Monitor {
    let res = Resolution { width: 2560, height: 1440 };
    Monitor {
        name: name.to_string(),
        description: name.to_string(),
        position: Position { x, y: 0 },
        resolution: res,
        available_resolutions: vec![res],
        refresh_rate: 14400,
        available_refresh_rates: vec![14400],
        scale: 100,
        transform: Transform::Normal,
        enabled: true,
        primary: false,
    }
}

fn make_app() -> App {
    App::new(
        vec![make_monitor("DP-1", 0), make_monitor("HDMI-A-1", 2560)],
        "config.toml".to_string(),
        Vec::new(),
    )
}

#[test]
fn test_undo_on_empty_history() {
    let mut app = make_app();
    assert!(!app.undo());
    assert_eq!(app.monitors.len(), 2);
    assert_eq!(app.selected_monitor, 0);
    assert!(!app.unsaved_changes);
    assert!(app.history.is_empty());
}

#[test]
fn test_undo_restores_pushed_snapshot() {
    let mut app = make_app();
    app.push_history();
    app.handle_key(Key::Char('d'), false);
    assert!(!app.monitors[0].enabled);
    assert!(app.undo());
    assert!(app.monitors[0].enabled);
    assert!(app.unsaved_changes);
    assert!(app.history.is_empty());
}

#[test]
fn test_history_bounded_at_fifty() {
    let mut app = make_app();
    for i in 0..60 {
        app.selected_monitor = (i % 2) as usize;
        app.push_history();
    }
    assert_eq!(app.history.len(), 50);
    // The oldest entries were evicted first: the earliest retained push
    // is the eleventh, made with selection 10 % 2 == 0.
    assert_eq!(app.history[0].selected_monitor, 0);
    assert_eq!(app.history[49].selected_monitor, 1);
}

#[test]
fn test_selection_navigation() {
    let mut app = make_app();
    app.handle_key(Key::Down, false);
    assert_eq!(app.selected_monitor, 1);
    app.handle_key(Key::Down, false);
    assert_eq!(app.selected_monitor, 1);
    app.handle_key(Key::Up, false);
    assert_eq!(app.selected_monitor, 0);
    app.handle_key(Key::Char('k'), false);
    assert_eq!(app.selected_monitor, 0);
}

#[test]
fn test_set_primary_is_exclusive() {
    let mut app = make_app();
    app.monitors[0].primary = true;
    app.selected_monitor = 1;
    app.handle_key(Key::Char(' '), false);
    assert!(!app.monitors[0].primary);
    assert!(app.monitors[1].primary);
    assert!(app.unsaved_changes);
}

#[test]
fn test_toggle_enabled_and_cycle_transform() {
    let mut app = make_app();
    app.handle_key(Key::Char('d'), false);
    assert!(!app.monitors[0].enabled);
    app.handle_key(Key::Char('r'), false);
    assert_eq!(app.monitors[0].transform, Transform::Rotate90);
    assert!(app.unsaved_changes);
}

#[test]
fn test_quit_with_unsaved_changes_asks_first() {
    let mut app = make_app();
    let action = app.handle_key(Key::Char('q'), false);
    assert_eq!(action, KeyAction::Quit);
    app.unsaved_changes = true;
    let action = app.handle_key(Key::Char('q'), false);
    assert_eq!(action, KeyAction::Nothing);
    assert!(matches!(
        app.mode,
        AppMode::Confirm { action: ConfirmAction::Quit, .. }
    ));
    // 'n' dismisses; a later 'y' would quit.
    app.handle_key(Key::Char('n'), false);
    assert!(matches!(app.mode, AppMode::Normal));
}

#[test]
fn test_confirmed_quit() {
    let mut app = make_app();
    app.unsaved_changes = true;
    app.handle_key(Key::Char('q'), false);
    let action = app.handle_key(Key::Char('y'), false);
    assert_eq!(action, KeyAction::Quit);
}

#[test]
fn test_apply_pushes_history_and_reports() {
    let mut app = make_app();
    let action = app.handle_key(Key::Char('a'), false);
    assert_eq!(action, KeyAction::ApplyAll);
    assert_eq!(app.history.len(), 1);
    app.apply_finished(None);
    assert_eq!(app.status_message.as_deref(), Some("Applied."));
    assert!(!app.unsaved_changes);

    app.unsaved_changes = true;
    app.apply_finished(Some("socket gone".to_string()));
    assert_eq!(app.error_message.as_deref(), Some("socket gone"));
    assert!(app.unsaved_changes);
}

#[test]
fn test_reset_flow() {
    let mut app = make_app();
    app.handle_key(Key::Char('R'), false);
    assert!(matches!(
        app.mode,
        AppMode::Confirm { action: ConfirmAction::Reset, .. }
    ));
    let action = app.handle_key(Key::Char('y'), false);
    assert_eq!(action, KeyAction::FetchReset);
    app.selected_monitor = 1;
    app.reset_finished(Some(vec![make_monitor("DP-9", 0)]));
    assert_eq!(app.monitors.len(), 1);
    assert_eq!(app.monitors[0].name, "DP-9");
    assert_eq!(app.selected_monitor, 0);
    assert!(!app.unsaved_changes);
    assert_eq!(app.history.len(), 1);
}

#[test]
fn test_help_and_profile_overlays() {
    let mut app = make_app();
    app.handle_key(Key::Char('?'), false);
    assert!(matches!(app.mode, AppMode::Help));
    app.handle_key(Key::Char('d'), false);
    assert!(app.monitors[0].enabled, "keys fall dead while help is shown");
    app.handle_key(Key::Esc, false);
    assert!(matches!(app.mode, AppMode::Normal));
    app.handle_key(Key::Char('p'), false);
    assert!(matches!(app.mode, AppMode::ProfileSelect));
    app.handle_key(Key::Esc, false);
    assert!(matches!(app.mode, AppMode::Normal));
}

#[test]
fn test_edit_field_cycle() {
    let mut f = EditField::Resolution;
    for _ in 0..6 {
        f = f.next();
    }
    assert_eq!(f, EditField::Resolution);
    assert_eq!(EditField::Resolution.prev(), EditField::Enabled);
    assert_eq!(EditField::Enabled.next(), EditField::Resolution);
    assert_eq!(EditField::Scale.prev().next(), EditField::Scale);
}

#[test]
fn test_move_selected_offsets_position() {
    let mut app = make_app();
    app.move_selected(10, -20);
    assert_eq!(app.monitors[0].position.x, 10);
    assert_eq!(app.monitors[0].position.y, -20);
    assert_eq!(app.monitors[1].position.x, 2560);
    assert!(app.unsaved_changes);
    app.monitors[0].position.x = i32::MAX - 1;
    app.move_selected(5, 0);
    assert_eq!(app.monitors[0].position.x, i32::MAX);
}

#[test]
fn test_adjust_scale_steps_and_clamps() {
    let mut app = make_app();
    app.adjust_scale(25);
    assert_eq!(app.monitors[0].scale, 125);
    app.adjust_scale(-100);
    assert_eq!(app.monitors[0].scale, 50, "clamped at the low end");
    for _ in 0..20 {
        app.adjust_scale(25);
    }
    assert_eq!(app.monitors[0].scale, 300, "clamped at the high end");
    assert!(app.unsaved_changes);
}

#[test]
fn test_clear_messages() {
    let mut app = make_app();
    app.set_status("hello".to_string());
    app.set_error("oops".to_string());
    app.clear_messages();
    assert!(app.status_message.is_none());
    assert!(app.error_message.is_none());
}
