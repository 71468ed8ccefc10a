//! The monitor data model: one record per physical output, with its
//! position, resolution, refresh rate, scale, transform and flags.
//!
//! Refresh rates are carried in centihertz and scales in hundredths, so the
//! whole model is integral and every derived string is computed exactly.

use vstd::prelude::*;

use crate::numtext::{dec_digits, digit_char, push_u64};

verus! {

/// Rotation/flip state applied to an output's rendered image.
/// The eight values form one cycle under [`Transform::next`].
#[derive(Clone, Copy, Debug, PartialEq, Eq, Structural)]
pub enum Transform {
    Normal,
    Rotate90,
    Rotate180,
    Rotate270,
    Flipped,
    Flipped90,
    Flipped180,
    Flipped270,
}

impl Default for Transform {
    fn default() -> (r: Self)
        ensures
            r == Transform::Normal,
    {
        Transform::Normal
    }
}

/// The successor of `t` in the transform cycle.
pub open spec fn spec_next_transform(t: Transform) -> Transform {
    match t {
        Transform::Normal => Transform::Rotate90,
        Transform::Rotate90 => Transform::Rotate180,
        Transform::Rotate180 => Transform::Rotate270,
        Transform::Rotate270 => Transform::Flipped,
        Transform::Flipped => Transform::Flipped90,
        Transform::Flipped90 => Transform::Flipped180,
        Transform::Flipped180 => Transform::Flipped270,
        Transform::Flipped270 => Transform::Normal,
    }
}

/// The protocol code of a transform: its index in the cycle, zero to seven.
pub open spec fn transform_code(t: Transform) -> nat {
    match t {
        Transform::Normal => 0,
        Transform::Rotate90 => 1,
        Transform::Rotate180 => 2,
        Transform::Rotate270 => 3,
        Transform::Flipped => 4,
        Transform::Flipped90 => 5,
        Transform::Flipped180 => 6,
        Transform::Flipped270 => 7,
    }
}

/// The transform a one-character protocol code denotes; anything
/// unrecognized denotes `Normal`.
pub open spec fn spec_transform_of_code(s: Seq<char>) -> Transform {
    if s.len() == 1 {
        spec_transform_of_char(s[0])
    } else {
        Transform::Normal
    }
}

/// The transform a single code character denotes.
pub open spec fn spec_transform_of_char(c: char) -> Transform {
    if c == '1' {
        Transform::Rotate90
    } else if c == '2' {
        Transform::Rotate180
    } else if c == '3' {
        Transform::Rotate270
    } else if c == '4' {
        Transform::Flipped
    } else if c == '5' {
        Transform::Flipped90
    } else if c == '6' {
        Transform::Flipped180
    } else if c == '7' {
        Transform::Flipped270
    } else {
        Transform::Normal
    }
}

impl Transform {
    /// The compositor's code for this transform, the digit "0" through "7".
    pub fn to_hyprland_str(&self) -> (r: &'static str)
        ensures
            r@ == seq![digit_char(transform_code(*self))],
    {
        proof {
            reveal_strlit("0");
            reveal_strlit("1");
            reveal_strlit("2");
            reveal_strlit("3");
            reveal_strlit("4");
            reveal_strlit("5");
            reveal_strlit("6");
            reveal_strlit("7");
        }
        let r = match self {
            Transform::Normal => "0",
            Transform::Rotate90 => "1",
            Transform::Rotate180 => "2",
            Transform::Rotate270 => "3",
            Transform::Flipped => "4",
            Transform::Flipped90 => "5",
            Transform::Flipped180 => "6",
            Transform::Flipped270 => "7",
        };
        proof {
            assert(r@ =~= seq![digit_char(transform_code(*self))]);
        }
        r
    }

    /// Reads a compositor transform code; any unrecognized code is taken
    /// permissively as `Normal`, never an error.
    pub fn from_hyprland_str(s: &str) -> (r: Self)
        ensures
            r == spec_transform_of_code(s@),
    {
        if s.unicode_len() != 1 {
            return Transform::Normal;
        }
        match s.get_char(0) {
            '1' => Transform::Rotate90,
            '2' => Transform::Rotate180,
            '3' => Transform::Rotate270,
            '4' => Transform::Flipped,
            '5' => Transform::Flipped90,
            '6' => Transform::Flipped180,
            '7' => Transform::Flipped270,
            _ => Transform::Normal,
        }
    }

    /// Advances to the next transform in the cycle; total, and wrapping
    /// from the last value to the first.
    pub fn next(&self) -> (r: Self)
        ensures
            r == spec_next_transform(*self),
    {
        match self {
            Transform::Normal => Transform::Rotate90,
            Transform::Rotate90 => Transform::Rotate180,
            Transform::Rotate180 => Transform::Rotate270,
            Transform::Rotate270 => Transform::Flipped,
            Transform::Flipped => Transform::Flipped90,
            Transform::Flipped90 => Transform::Flipped180,
            Transform::Flipped180 => Transform::Flipped270,
            Transform::Flipped270 => Transform::Normal,
        }
    }
}

/// Applying `next` eight times returns every transform to itself: the
/// transforms form one cycle of length eight.
pub proof fn lemma_transform_cycle_of_order_eight(t: Transform)
    ensures
        spec_next_transform(
            spec_next_transform(
                spec_next_transform(
                    spec_next_transform(
                        spec_next_transform(
                            spec_next_transform(spec_next_transform(spec_next_transform(t))),
                        ),
                    ),
                ),
            ),
        ) == t,
{
}

/// `next` is injective: two transforms with the same successor are equal.
pub proof fn lemma_transform_next_injective(a: Transform, b: Transform)
    requires
        spec_next_transform(a) == spec_next_transform(b),
    ensures
        a == b,
{
}

/// Encoding a transform and decoding the code again round-trips, for each
/// of the eight defined codes.
pub proof fn lemma_transform_code_round_trip(t: Transform)
    ensures
        spec_transform_of_code(seq![digit_char(transform_code(t))]) == t,
{
    assert(seq![digit_char(transform_code(t))].len() == 1);
    assert(seq![digit_char(transform_code(t))][0] == digit_char(transform_code(t)));
}

/// Decoding is total and permissive: any code that is not the exact code
/// of some transform denotes `Normal`, never an error.
pub proof fn lemma_unrecognized_code_is_normal(s: Seq<char>)
    ensures
        spec_transform_of_code(s) == Transform::Normal || exists|t: Transform|
            s =~= seq![digit_char(transform_code(t))],
{
    if spec_transform_of_code(s) != Transform::Normal {
        let c = s[0];
        if c == '1' {
            assert(s =~= seq![digit_char(transform_code(Transform::Rotate90))]);
        } else if c == '2' {
            assert(s =~= seq![digit_char(transform_code(Transform::Rotate180))]);
        } else if c == '3' {
            assert(s =~= seq![digit_char(transform_code(Transform::Rotate270))]);
        } else if c == '4' {
            assert(s =~= seq![digit_char(transform_code(Transform::Flipped))]);
        } else if c == '5' {
            assert(s =~= seq![digit_char(transform_code(Transform::Flipped90))]);
        } else if c == '6' {
            assert(s =~= seq![digit_char(transform_code(Transform::Flipped180))]);
        } else {
            assert(s =~= seq![digit_char(transform_code(Transform::Flipped270))]);
        }
    }
}

/// Position of an output in the virtual compositor pixel space; either
/// coordinate may be negative.
#[derive(Clone, Copy, Debug, PartialEq, Eq, Structural)]
pub struct Position {
    pub x: i32,
    pub y: i32,
}

impl Default for Position {
    fn default() -> (r: Self)
        ensures
            r == (Position { x: 0, y: 0 }),
    {
        Position { x: 0, y: 0 }
    }
}

/// Screen resolution in pixels.
#[derive(Clone, Copy, Debug, PartialEq, Eq, Structural)]
pub struct Resolution {
    pub width: u32,
    pub height: u32,
}

/// The canonical display form of a resolution: `"{width}x{height}"`.
pub open spec fn resolution_str(r: Resolution) -> Seq<char> {
    dec_digits(r.width as nat) + seq!['x'] + dec_digits(r.height as nat)
}

impl Resolution {
    /// Renders this resolution in its canonical `"{width}x{height}"` form.
    pub fn display_string(&self) -> (r: String)
        ensures
            r@ == resolution_str(*self),
    {
        let mut s = String::new();
        push_u64(&mut s, self.width as u64);
        s.append("x");
        push_u64(&mut s, self.height as u64);
        proof {
            reveal_strlit("x");
            assert(s@ =~= resolution_str(*self));
        }
        s
    }
}

/// One selectable mode of an output: a resolution with a refresh rate
/// in centihertz.
#[derive(Clone, Copy, Debug, PartialEq, Eq, Structural)]
pub struct Mode {
    pub width: u32,
    pub height: u32,
    /// Refresh rate in hundredths of a hertz.
    pub refresh_rate: u32,
}

/// One physical output and its configurable attributes.
#[derive(Debug)]
pub struct Monitor {
    /// Stable compositor-assigned identifier, unique within a snapshot.
    pub name: String,
    /// Manufacturer/model string; informational, never a key.
    pub description: String,
    /// Offset in the virtual compositor pixel space.
    pub position: Position,
    /// Current resolution.
    pub resolution: Resolution,
    /// The resolutions the compositor reports as selectable.
    pub available_resolutions: Vec<Resolution>,
    /// Current refresh rate in hundredths of a hertz.
    pub refresh_rate: u32,
    /// The selectable refresh rates, in hundredths of a hertz.
    pub available_refresh_rates: Vec<u32>,
    /// Output scale in hundredths: 100 is a scale of one.
    pub scale: u32,
    /// Rotation/flip applied to the rendered image.
    pub transform: Transform,
    /// Whether the output is active; a disabled monitor is excluded from
    /// apply commands and from the generated configuration.
    pub enabled: bool,
    /// Whether this is the designated main output.
    pub primary: bool,
}

/// The mathematical value of a monitor record: the same attributes with
/// text as character sequences and lists as sequences.
#[verifier::ext_equal]
pub ghost struct MonitorV {
    pub name: Seq<char>,
    pub description: Seq<char>,
    pub position: Position,
    pub resolution: Resolution,
    pub available_resolutions: Seq<Resolution>,
    pub refresh_rate: u32,
    pub available_refresh_rates: Seq<u32>,
    pub scale: u32,
    pub transform: Transform,
    pub enabled: bool,
    pub primary: bool,
}

impl View for Monitor {
    type V = MonitorV;

    open spec fn view(&self) -> MonitorV {
        MonitorV {
            name: self.name@,
            description: self.description@,
            position: self.position,
            resolution: self.resolution,
            available_resolutions: self.available_resolutions@,
            refresh_rate: self.refresh_rate,
            available_refresh_rates: self.available_refresh_rates@,
            scale: self.scale,
            transform: self.transform,
            enabled: self.enabled,
            primary: self.primary,
        }
    }
}

impl DeepView for Monitor {
    type V = MonitorV;

    open spec fn deep_view(&self) -> MonitorV {
        self.view()
    }
}

impl Clone for Monitor {
    /// A clone carries the same attributes as the original.
    fn clone(&self) -> (r: Self)
        ensures
            r@ == self@,
    {
        let r = Monitor {
            name: self.name.clone(),
            description: self.description.clone(),
            position: self.position,
            resolution: self.resolution,
            available_resolutions: clone_resolutions(&self.available_resolutions),
            refresh_rate: self.refresh_rate,
            available_refresh_rates: clone_rates(&self.available_refresh_rates),
            scale: self.scale,
            transform: self.transform,
            enabled: self.enabled,
            primary: self.primary,
        };
        proof {
            assert(r@ =~= self@);
        }
        r
    }
}

fn clone_resolutions(v: &Vec<Resolution>) -> (r: Vec<Resolution>)
    ensures
        r@ == v@,
{
    let r = v.clone();
    proof {
        assert(r@ =~= v@);
    }
    r
}

fn clone_rates(v: &Vec<u32>) -> (r: Vec<u32>)
    ensures
        r@ == v@,
{
    let r = v.clone();
    proof {
        assert(r@ =~= v@);
    }
    r
}

/// Copies a snapshot element by element; the copy carries the same
/// monitors as the original.
pub fn clone_monitors(v: &Vec<Monitor>) -> (r: Vec<Monitor>)
    ensures
        r.deep_view() == v.deep_view(),
{
    let mut r: Vec<Monitor> = Vec::new();
    let mut i: usize = 0;
    while i < v.len()
        invariant
            0 <= i <= v@.len(),
            r@.len() == i,
            forall|j: int| 0 <= j < i ==> #[trigger] r@[j]@ == v@[j]@,
        decreases v@.len() - i,
    {
        r.push(v[i].clone());
        i = i + 1;
    }
    proof {
        assert(r.deep_view() =~= v.deep_view());
    }
    r
}

} // verus!
