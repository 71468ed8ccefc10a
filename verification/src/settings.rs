//! Presentation and behavior settings: the color theme, the optional hex
//! overrides read from the configuration file, and general knobs.
//!
//! An override is applied only if it parses as a hex color; anything else
//! leaves the built-in color standing.

use vstd::prelude::*;

use crate::numtext::{is_digit, digit_val, trim_bounds, trimmed};

verus! {

/// A color as red, green and blue channels.
#[derive(Clone, Copy, Debug, PartialEq, Eq, Structural)]
pub struct Rgb {
    pub r: u8,
    pub g: u8,
    pub b: u8,
}

/// Whether `c` is a hexadecimal digit, either case.
pub open spec fn is_hex_digit(c: char) -> bool {
    is_digit(c) || c == 'a' || c == 'b' || c == 'c' || c == 'd' || c == 'e' || c == 'f' || c == 'A'
        || c == 'B' || c == 'C' || c == 'D' || c == 'E' || c == 'F'
}

/// The numeric value of a hexadecimal digit character.
pub open spec fn hex_val(c: char) -> nat {
    if is_digit(c) {
        digit_val(c)
    } else if c == 'a' || c == 'A' {
        10
    } else if c == 'b' || c == 'B' {
        11
    } else if c == 'c' || c == 'C' {
        12
    } else if c == 'd' || c == 'D' {
        13
    } else if c == 'e' || c == 'E' {
        14
    } else {
        15
    }
}

/// `s` without its leading `#` characters.
pub open spec fn drop_leading_hashes(s: Seq<char>) -> Seq<char>
    decreases s.len(),
{
    if s.len() > 0 && s[0] == '#' {
        drop_leading_hashes(s.skip(1))
    } else {
        s
    }
}

/// A hex color read as `"#rrggbb"`: after trimming blanks and stripping
/// leading hashes, exactly six hex digits, two per channel.
pub open spec fn spec_parse_hex(s: Seq<char>) -> Option<Rgb> {
    let t = drop_leading_hashes(trimmed(s));
    if t.len() == 6 && (forall|i: int| 0 <= i < 6 ==> is_hex_digit(#[trigger] t[i])) {
        Option::Some(
            Rgb {
                r: (hex_val(t[0]) * 16 + hex_val(t[1])) as u8,
                g: (hex_val(t[2]) * 16 + hex_val(t[3])) as u8,
                b: (hex_val(t[4]) * 16 + hex_val(t[5])) as u8,
            },
        )
    } else {
        Option::None
    }
}

proof fn lemma_drop_leading_hashes(s: Seq<char>, k: int)
    requires
        0 <= k <= s.len(),
        forall|j: int| 0 <= j < k ==> s[j] == '#',
        k < s.len() ==> s[k] != '#',
    ensures
        drop_leading_hashes(s) == s.skip(k),
    decreases k,
{
    if k == 0 {
        assert(s.skip(0) =~= s);
    } else {
        lemma_drop_leading_hashes(s.skip(1), k - 1);
        assert(s.skip(1).skip(k - 1) =~= s.skip(k));
    }
}

/// The hex value of a hex digit character; 16 marks a non-digit.
fn hex_digit_of(c: char) -> (r: u8)
    ensures
        r < 16 ==> is_hex_digit(c) && r == hex_val(c),
        r == 16 ==> !is_hex_digit(c),
        r <= 16,
{
    match c {
        '0' => 0,
        '1' => 1,
        '2' => 2,
        '3' => 3,
        '4' => 4,
        '5' => 5,
        '6' => 6,
        '7' => 7,
        '8' => 8,
        '9' => 9,
        'a' | 'A' => 10,
        'b' | 'B' => 11,
        'c' | 'C' => 12,
        'd' | 'D' => 13,
        'e' | 'E' => 14,
        'f' | 'F' => 15,
        _ => 16,
    }
}

/// Optional hex color overrides, as read from the configuration file.
#[derive(Debug, Default)]
pub struct ThemeConfig {
    pub accent: Option<String>,
    pub accent_secondary: Option<String>,
    pub success: Option<String>,
    pub warning: Option<String>,
    pub error: Option<String>,
}

impl ThemeConfig {
    /// Parses a hex color `"#rrggbb"`, exactly as [`spec_parse_hex`]
    /// reads it.
    #[verifier::loop_isolation(false)]
    pub fn parse_hex(s: &str) -> (r: Option<Rgb>)
        ensures
            r == spec_parse_hex(s@),
    {
        let (lo, hi) = trim_bounds(s);
        let t = s.substring_char(lo, hi);
        proof {
            assert(t@ == trimmed(s@));
        }
        let tlen = t.unicode_len();
        let mut k: usize = 0;
        while k < tlen && t.get_char(k) == '#'
            invariant
                0 <= k <= tlen == t@.len(),
                forall|j: int| 0 <= j < k ==> t@[j] == '#',
            decreases tlen - k,
        {
            k = k + 1;
        }
        proof {
            lemma_drop_leading_hashes(t@, k as int);
        }
        let h = t.substring_char(k, tlen);
        proof {
            assert(h@ =~= t@.skip(k as int));
        }
        if h.unicode_len() != 6 {
            return None;
        }
        let d0 = hex_digit_of(h.get_char(0));
        let d1 = hex_digit_of(h.get_char(1));
        let d2 = hex_digit_of(h.get_char(2));
        let d3 = hex_digit_of(h.get_char(3));
        let d4 = hex_digit_of(h.get_char(4));
        let d5 = hex_digit_of(h.get_char(5));
        if d0 == 16 || d1 == 16 || d2 == 16 || d3 == 16 || d4 == 16 || d5 == 16 {
            return None;
        }
        Some(Rgb { r: d0 * 16 + d1, g: d2 * 16 + d3, b: d4 * 16 + d5 })
    }

    /// Applies each override that parses onto the theme; the accent
    /// override also drives the active border color. Everything else is
    /// left standing.
    pub fn apply_to(&self, theme: &mut Theme)
        ensures
            final(theme).accent == spec_override(self.accent, old(theme).accent),
            final(theme).border_active == spec_override(self.accent, old(theme).border_active),
            final(theme).accent_secondary == spec_override(
                self.accent_secondary,
                old(theme).accent_secondary,
            ),
            final(theme).success == spec_override(self.success, old(theme).success),
            final(theme).warning == spec_override(self.warning, old(theme).warning),
            final(theme).error == spec_override(self.error, old(theme).error),
            final(theme).bg == old(theme).bg,
            final(theme).fg == old(theme).fg,
            final(theme).fg_dim == old(theme).fg_dim,
            final(theme).border == old(theme).border,
            final(theme).selection == old(theme).selection,
    {
        match &self.accent {
            Some(s) => {
                match Self::parse_hex(s.as_str()) {
                    Some(c) => {
                        theme.accent = c;
                        theme.border_active = c;
                    },
                    None => {},
                }
            },
            None => {},
        }
        match &self.accent_secondary {
            Some(s) => {
                match Self::parse_hex(s.as_str()) {
                    Some(c) => {
                        theme.accent_secondary = c;
                    },
                    None => {},
                }
            },
            None => {},
        }
        match &self.success {
            Some(s) => {
                match Self::parse_hex(s.as_str()) {
                    Some(c) => {
                        theme.success = c;
                    },
                    None => {},
                }
            },
            None => {},
        }
        match &self.warning {
            Some(s) => {
                match Self::parse_hex(s.as_str()) {
                    Some(c) => {
                        theme.warning = c;
                    },
                    None => {},
                }
            },
            None => {},
        }
        match &self.error {
            Some(s) => {
                match Self::parse_hex(s.as_str()) {
                    Some(c) => {
                        theme.error = c;
                    },
                    None => {},
                }
            },
            None => {},
        }
    }
}

/// The color an optional override leaves in a slot: the parsed override
/// when it is present and parses, the standing color otherwise.
pub open spec fn spec_override(over: Option<String>, standing: Rgb) -> Rgb {
    match over {
        Option::Some(s) => match spec_parse_hex(s@) {
            Option::Some(c) => c,
            Option::None => standing,
        },
        Option::None => standing,
    }
}

/// The application color theme.
#[derive(Clone, Copy, Debug, PartialEq, Eq, Structural)]
pub struct Theme {
    /// Background color.
    pub bg: Rgb,
    /// Foreground/text color.
    pub fg: Rgb,
    /// Dimmed text color.
    pub fg_dim: Rgb,
    /// Primary accent color.
    pub accent: Rgb,
    /// Secondary accent color.
    pub accent_secondary: Rgb,
    /// Success/positive color.
    pub success: Rgb,
    /// Warning color.
    pub warning: Rgb,
    /// Error/danger color.
    pub error: Rgb,
    /// Border color.
    pub border: Rgb,
    /// Active border color.
    pub border_active: Rgb,
    /// Selection background.
    pub selection: Rgb,
}

/// The built-in theme colors.
pub open spec fn spec_default_theme() -> Theme {
    Theme {
        bg: Rgb { r: 26, g: 27, b: 38 },
        fg: Rgb { r: 192, g: 202, b: 245 },
        fg_dim: Rgb { r: 86, g: 95, b: 137 },
        accent: Rgb { r: 122, g: 162, b: 247 },
        accent_secondary: Rgb { r: 187, g: 154, b: 247 },
        success: Rgb { r: 158, g: 206, b: 106 },
        warning: Rgb { r: 224, g: 175, b: 104 },
        error: Rgb { r: 247, g: 118, b: 142 },
        border: Rgb { r: 65, g: 72, b: 104 },
        border_active: Rgb { r: 122, g: 162, b: 247 },
        selection: Rgb { r: 40, g: 52, b: 87 },
    }
}

impl Default for Theme {
    fn default() -> (r: Self)
        ensures
            r == spec_default_theme(),
    {
        Theme {
            bg: Rgb { r: 26, g: 27, b: 38 },
            fg: Rgb { r: 192, g: 202, b: 245 },
            fg_dim: Rgb { r: 86, g: 95, b: 137 },
            accent: Rgb { r: 122, g: 162, b: 247 },
            accent_secondary: Rgb { r: 187, g: 154, b: 247 },
            success: Rgb { r: 158, g: 206, b: 106 },
            warning: Rgb { r: 224, g: 175, b: 104 },
            error: Rgb { r: 247, g: 118, b: 142 },
            border: Rgb { r: 65, g: 72, b: 104 },
            border_active: Rgb { r: 122, g: 162, b: 247 },
            selection: Rgb { r: 40, g: 52, b: 87 },
        }
    }
}

/// General behavior settings.
#[derive(Debug)]
pub struct GeneralSettings {
    /// Whether edits are applied to the compositor as they are made.
    pub auto_apply: bool,
    /// Seconds before an unconfirmed preview is rolled back.
    pub preview_timeout: u64,
    /// Scale editing step in hundredths: 25 is a quarter.
    pub scale_step: u32,
}

impl Default for GeneralSettings {
    fn default() -> (r: Self)
        ensures
            r.auto_apply == false,
            r.preview_timeout == 10,
            r.scale_step == 25,
    {
        GeneralSettings { auto_apply: false, preview_timeout: 10, scale_step: 25 }
    }
}

/// Optional key overrides.
#[derive(Debug, Default)]
pub struct KeybindingsConfig {
    pub quit: Option<String>,
    pub apply: Option<String>,
    pub save: Option<String>,
    pub help: Option<String>,
}

/// The root of the configuration file.
#[derive(Debug, Default)]
pub struct AppConfig {
    pub general: GeneralSettings,
    pub theme: ThemeConfig,
    pub keybindings: KeybindingsConfig,
}

} // verus!
