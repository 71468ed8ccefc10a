//! Theme and settings tests: the hex-color parse contract and the
//! override application.

use hypr_monitor_tui::settings::{Rgb, Theme, ThemeConfig};

#[test]
fn test_parse_hex_plain() {
    assert_eq!(
        ThemeConfig::parse_hex("#7aa2f7"),
        Some(Rgb { r: 122, g: 162, b: 247 })
    );
    assert_eq!(
        ThemeConfig::parse_hex("7aa2f7"),
        Some(Rgb { r: 122, g: 162, b: 247 })
    );
    assert_eq!(
        ThemeConfig::parse_hex("  #FFFFFF  "),
        Some(Rgb { r: 255, g: 255, b: 255 })
    );
}

#[test]
fn test_parse_hex_rejects_malformed() {
    assert_eq!(ThemeConfig::parse_hex("#12345"), None);
    assert_eq!(ThemeConfig::parse_hex("#1234567"), None);
    assert_eq!(ThemeConfig::parse_hex("#zzzzzz"), None);
    assert_eq!(ThemeConfig::parse_hex(""), None);
    assert_eq!(ThemeConfig::parse_hex("#"), None);
}

#[test]
fn test_apply_to_overrides_only_what_parses() {
    let mut theme = Theme::default();
    let before = theme;
    let cfg = ThemeConfig {
        accent: Some("#010203".to_string()),
        accent_secondary: Some("nonsense".to_string()),
        success: None,
        warning: Some("#0a0b0c".to_string()),
        error: None,
    };
    cfg.apply_to(&mut theme);
    assert_eq!(theme.accent, Rgb { r: 1, g: 2, b: 3 });
    assert_eq!(theme.border_active, Rgb { r: 1, g: 2, b: 3 });
    assert_eq!(theme.accent_secondary, before.accent_secondary);
    assert_eq!(theme.success, before.success);
    assert_eq!(theme.warning, Rgb { r: 10, g: 11, b: 12 });
    assert_eq!(theme.error, before.error);
    assert_eq!(theme.bg, before.bg);
    assert_eq!(theme.fg, before.fg);
}

#[test]
fn test_default_theme_colors() {
    let theme = Theme::default();
    assert_eq!(theme.bg, Rgb { r: 26, g: 27, b: 38 });
    assert_eq!(theme.accent, Rgb { r: 122, g: 162, b: 247 });
    assert_eq!(theme.border_active, theme.accent);
}
