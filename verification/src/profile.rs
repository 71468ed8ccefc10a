//! Monitor profiles: named, persisted subsets of monitor attributes that
//! are captured from a live snapshot and later merged back onto one.
//!
//! A profile is not self-contained: on merge, the live monitor of matching
//! name supplies the description and the selectable mode lists, and the
//! current resolution and refresh rate stand in wherever the stored
//! resolution string is absent or fails to parse. An entry whose name has
//! no live monitor is dropped, never fabricated.

use vstd::prelude::*;

use crate::monitor::{Monitor, MonitorV, Position, Resolution, Transform, resolution_str,
    spec_transform_of_code, transform_code};
use crate::numtext::{all_digits, dec_value, digit_char, find_from, is_digit, spec_parse_centi,
    find_char, parse_centi, parse_u32};

verus! {

/// One monitor's stored attributes within a profile.
#[derive(Debug)]
pub struct MonitorConfig {
    /// Name of the monitor the entry applies to.
    pub name: String,
    /// Stored resolution as `"{width}x{height}@{hz}"`; absent or
    /// unparsable means the live resolution is kept on merge.
    pub resolution: Option<String>,
    /// Stored refresh rate in centihertz; absent means the parsed or live
    /// rate is kept on merge.
    pub refresh_rate: Option<u32>,
    /// Stored position, x then y.
    pub position: [i32; 2],
    /// Stored scale in hundredths.
    pub scale: u32,
    /// Stored transform protocol code; unrecognized codes mean `Normal`.
    pub transform: String,
    /// Whether the monitor is enabled.
    pub enabled: bool,
    /// Whether the monitor is the primary output.
    pub primary: bool,
}

/// The mathematical value of a stored profile entry.
#[verifier::ext_equal]
pub ghost struct MonitorConfigV {
    pub name: Seq<char>,
    pub resolution: Option<Seq<char>>,
    pub refresh_rate: Option<u32>,
    pub x: i32,
    pub y: i32,
    pub scale: u32,
    pub transform: Seq<char>,
    pub enabled: bool,
    pub primary: bool,
}

impl View for MonitorConfig {
    type V = MonitorConfigV;

    open spec fn view(&self) -> MonitorConfigV {
        MonitorConfigV {
            name: self.name@,
            resolution: match self.resolution {
                Option::Some(s) => Option::Some(s@),
                Option::None => Option::None,
            },
            refresh_rate: self.refresh_rate,
            x: self.position@[0],
            y: self.position@[1],
            scale: self.scale,
            transform: self.transform@,
            enabled: self.enabled,
            primary: self.primary,
        }
    }
}

impl DeepView for MonitorConfig {
    type V = MonitorConfigV;

    open spec fn deep_view(&self) -> MonitorConfigV {
        self.view()
    }
}

/// A named, persisted configuration snapshot.
#[derive(Debug)]
pub struct Profile {
    /// Profile name; on disk, the file is named after it.
    pub name: String,
    /// Optional human description.
    pub description: Option<String>,
    /// One stored entry per monitor, in capture order.
    pub monitors: Vec<MonitorConfig>,
    /// Creation timestamp, ISO-8601.
    pub created_at: Option<String>,
    /// Last-modification timestamp, ISO-8601.
    pub modified_at: Option<String>,
}

/// A stored resolution string read as `"{width}x{height}"` or
/// `"{width}x{height}@{hz}"`: width and height are plain decimals that
/// must fit; the refresh rate after the first `@` is read into centihertz
/// and defaults to 60 hertz when the clause is omitted or does not parse.
pub open spec fn spec_parse_res(s: Seq<char>) -> Option<(u32, u32, u32)> {
    let at = find_from(s, '@', 0);
    let res = if at < 0 {
        s
    } else {
        s.take(at)
    };
    let x = find_from(res, 'x', 0);
    if x < 0 {
        Option::None
    } else {
        let ws = res.take(x);
        let hs = res.skip(x + 1);
        if ws.len() > 0 && all_digits(ws) && dec_value(ws) <= u32::MAX && hs.len() > 0
            && all_digits(hs) && dec_value(hs) <= u32::MAX {
            let hz = if at < 0 {
                6000
            } else {
                match spec_parse_centi(s.skip(at + 1)) {
                    Option::Some(v) => v,
                    Option::None => 6000,
                }
            };
            Option::Some((dec_value(ws) as u32, dec_value(hs) as u32, hz))
        } else {
            Option::None
        }
    }
}

/// Parses a stored resolution string into a resolution and a refresh rate
/// in centihertz, exactly as [`spec_parse_res`] reads it. A captured
/// profile stores the canonical `"{width}x{height}"` form, so a string
/// without the `@` clause parses, at 60 hertz.
#[verifier::loop_isolation(false)]
pub fn parse_res(s: &str) -> (r: Option<(Resolution, u32)>)
    ensures
        spec_parse_res(s@) matches Some(p) ==> r == Some(
            (Resolution { width: p.0, height: p.1 }, p.2),
        ),
        spec_parse_res(s@) is None ==> r is None,
{
    let len = s.unicode_len();
    let at = find_char(s, '@', 0);
    let res = match at {
        Some(i) => s.substring_char(0, i),
        None => s,
    };
    proof {
        match at {
            Some(i) => {
                assert(res@ =~= s@.take(find_from(s@, '@', 0)));
            },
            None => {},
        }
    }
    let x = match find_char(res, 'x', 0) {
        Some(i) => i,
        None => {
            return None;
        },
    };
    let ws = res.substring_char(0, x);
    let hs = res.substring_char(x + 1, res.unicode_len());
    proof {
        assert(ws@ =~= res@.take(find_from(res@, 'x', 0)));
        assert(hs@ =~= res@.skip(find_from(res@, 'x', 0) + 1));
    }
    let width = match parse_u32(ws) {
        Some(v) => v,
        None => {
            return None;
        },
    };
    let height = match parse_u32(hs) {
        Some(v) => v,
        None => {
            return None;
        },
    };
    let hz: u32 = match at {
        Some(i) => {
            let hz_s = s.substring_char(i + 1, len);
            proof {
                assert(hz_s@ =~= s@.skip(find_from(s@, '@', 0) + 1));
            }
            match parse_centi(hz_s) {
                Some(v) => v,
                None => 6000,
            }
        },
        None => 6000,
    };
    Some((Resolution { width, height }, hz))
}

/// The first live monitor of the given name, if any.
pub open spec fn spec_find_monitor(cur: Seq<MonitorV>, name: Seq<char>) -> Option<MonitorV>
    decreases cur.len(),
{
    if cur.len() == 0 {
        Option::None
    } else if cur[0].name == name {
        Option::Some(cur[0])
    } else {
        spec_find_monitor(cur.drop_first(), name)
    }
}

proof fn lemma_find_monitor_at(cur: Seq<MonitorV>, name: Seq<char>, i: int)
    requires
        0 <= i < cur.len(),
        cur[i].name == name,
        forall|j: int| 0 <= j < i ==> cur[j].name != name,
    ensures
        spec_find_monitor(cur, name) == Some(cur[i]),
    decreases i,
{
    if i > 0 {
        lemma_find_monitor_at(cur.drop_first(), name, i - 1);
    }
}

proof fn lemma_find_monitor_none(cur: Seq<MonitorV>, name: Seq<char>)
    requires
        forall|j: int| 0 <= j < cur.len() ==> cur[j].name != name,
    ensures
        spec_find_monitor(cur, name) is None,
    decreases cur.len(),
{
    if cur.len() > 0 {
        lemma_find_monitor_none(cur.drop_first(), name);
    }
}

/// A found monitor is one of the live monitors, under the searched name.
pub proof fn lemma_find_monitor_is_live(cur: Seq<MonitorV>, name: Seq<char>)
    requires
        spec_find_monitor(cur, name) is Some,
    ensures
        exists|j: int|
            0 <= j < cur.len() && cur[j] == spec_find_monitor(cur, name)->Some_0 && cur[j].name
                == name,
    decreases cur.len(),
{
    if cur.len() > 0 {
        if cur[0].name == name {
            assert(cur[0] == spec_find_monitor(cur, name)->Some_0 && cur[0].name == name);
        } else {
            lemma_find_monitor_is_live(cur.drop_first(), name);
            let j = choose|j: int|
                0 <= j < cur.drop_first().len() && cur.drop_first()[j] == spec_find_monitor(
                    cur.drop_first(),
                    name,
                )->Some_0 && cur.drop_first()[j].name == name;
            assert(cur[j + 1] == spec_find_monitor(cur, name)->Some_0 && cur[j + 1].name == name);
        }
    }
}

/// The monitor a profile entry produces against a live monitor of the same
/// name: stored position, scale, transform and flags; stored resolution
/// and refresh rate where the resolution string parses, the live values
/// as fallback; description and selectable mode lists always live.
pub open spec fn spec_merged(mc: MonitorConfigV, live: MonitorV) -> MonitorV {
    let parsed = match mc.resolution {
        Option::Some(rs) => spec_parse_res(rs),
        Option::None => Option::None,
    };
    let resolution = match parsed {
        Option::Some(p) => Resolution { width: p.0, height: p.1 },
        Option::None => live.resolution,
    };
    let refresh_rate = match mc.refresh_rate {
        Option::Some(r) => r,
        Option::None => match parsed {
            Option::Some(p) => p.2,
            Option::None => live.refresh_rate,
        },
    };
    MonitorV {
        name: mc.name,
        description: live.description,
        position: Position { x: mc.x, y: mc.y },
        resolution,
        available_resolutions: live.available_resolutions,
        refresh_rate,
        available_refresh_rates: live.available_refresh_rates,
        scale: mc.scale,
        transform: spec_transform_of_code(mc.transform),
        enabled: mc.enabled,
        primary: mc.primary,
    }
}

/// What one profile entry contributes to a merge: its merged monitor when
/// a live monitor of the same name exists, nothing otherwise.
pub open spec fn merge_entry_of(cur: Seq<MonitorV>) -> spec_fn(MonitorConfigV) -> Option<MonitorV> {
    |mc: MonitorConfigV|
        match spec_find_monitor(cur, mc.name) {
            Option::Some(live) => Option::Some(spec_merged(mc, live)),
            Option::None => Option::None,
        }
}

/// The merge of a profile onto a live snapshot: exactly the surviving
/// entries, in profile order.
pub open spec fn spec_merge(entries: Seq<MonitorConfigV>, cur: Seq<MonitorV>) -> Seq<MonitorV> {
    entries.filter_map(merge_entry_of(cur))
}

/// The stored entry that captures a live monitor: its attributes verbatim,
/// the resolution in canonical form, the transform as its protocol code.
pub open spec fn spec_capture_entry(m: MonitorV) -> MonitorConfigV {
    MonitorConfigV {
        name: m.name,
        resolution: Option::Some(resolution_str(m.resolution)),
        refresh_rate: Option::Some(m.refresh_rate),
        x: m.position.x,
        y: m.position.y,
        scale: m.scale,
        transform: seq![digit_char(transform_code(m.transform))],
        enabled: m.enabled,
        primary: m.primary,
    }
}

/// Whether position `t` of `s` is the `T` of an RFC 3339 UTC date-time:
/// a `yyyy-mm-dd` date before it (the year possibly signed and longer for
/// years outside 0..=9999), `hh:mm:ss` after it, then an optional
/// fraction of at least one digit, and the literal `+00:00` offset.
pub open spec fn rfc3339_utc_time_at(s: Seq<char>, t: int) -> bool {
    &&& 10 <= t
    &&& t + 9 + 6 <= s.len()
    &&& s[t] == 'T'
    &&& s[t - 6] == '-'
    &&& s[t - 3] == '-'
    &&& is_digit(s[t - 5]) && is_digit(s[t - 4]) && is_digit(s[t - 2]) && is_digit(s[t - 1])
    &&& forall|j: int|
        0 <= j < t - 6 ==> is_digit(#[trigger] s[j]) || (j == 0 && (s[0] == '+' || s[0] == '-'))
    &&& is_digit(s[t + 1]) && is_digit(s[t + 2]) && s[t + 3] == ':' && is_digit(s[t + 4])
        && is_digit(s[t + 5]) && s[t + 6] == ':' && is_digit(s[t + 7]) && is_digit(s[t + 8])
    &&& s.subrange(s.len() - 6, s.len() as int) == "+00:00"@
    &&& (s.len() - 6 == t + 9 || (s[t + 9] == '.' && t + 10 < s.len() - 6 && forall|j: int|
        t + 10 <= j < s.len() - 6 ==> is_digit(#[trigger] s[j])))
}

/// Whether `s` has the RFC 3339 form chrono writes for a UTC date-time.
pub open spec fn spec_rfc3339_utc(s: Seq<char>) -> bool {
    exists|t: int| rfc3339_utc_time_at(s, t)
}

/// Relies on `chrono::Utc::now` and `DateTime::to_rfc3339` for the current
/// UTC wall-clock time. The clock may say anything, so nothing is assumed
/// of the value; but whatever it says, `write_rfc3339` renders it in the
/// RFC 3339 shape with the `+00:00` offset.
#[verifier::external_body]
fn now_rfc3339() -> (r: String)
    ensures
        spec_rfc3339_utc(r@),
{
    chrono::Utc::now().to_rfc3339()
}

impl Profile {
    /// Captures a profile from the current snapshot: one entry per
    /// monitor, resolution and refresh rate verbatim from each live
    /// monitor, and both timestamps stamped to the same RFC 3339 UTC
    /// "now".
    pub fn from_monitors(name: String, description: Option<String>, monitors: &Vec<Monitor>) -> (r:
        Profile)
        ensures
            r.name == name,
            r.description == description,
            r.monitors.deep_view() == monitors.deep_view().map_values(
                |m: MonitorV| spec_capture_entry(m),
            ),
            r.created_at matches Some(t) && spec_rfc3339_utc(t@),
            r.created_at == r.modified_at,
    {
        let now = now_rfc3339();
        let mut entries: Vec<MonitorConfig> = Vec::new();
        let mut i: usize = 0;
        while i < monitors.len()
            invariant
                0 <= i <= monitors@.len(),
                entries@.len() == i,
                forall|j: int|
                    0 <= j < i ==> #[trigger] entries@[j]@ == spec_capture_entry(
                        monitors@[j]@,
                    ),
            decreases monitors@.len() - i,
        {
            let m = &monitors[i];
            let entry = MonitorConfig {
                name: m.name.clone(),
                resolution: Some(m.resolution.display_string()),
                refresh_rate: Some(m.refresh_rate),
                position: [m.position.x, m.position.y],
                scale: m.scale,
                transform: transform_code_string(&m.transform),
                enabled: m.enabled,
                primary: m.primary,
            };
            proof {
                assert(entry@ =~= spec_capture_entry(monitors@[i as int]@));
            }
            entries.push(entry);
            i = i + 1;
        }
        let r = Profile {
            name,
            description,
            monitors: entries,
            created_at: Some(now.clone()),
            modified_at: Some(now),
        };
        proof {
            assert(r.monitors.deep_view() =~= monitors.deep_view().map_values(
                |m: MonitorV| spec_capture_entry(m),
            ));
        }
        r
    }

    /// Merges this profile onto a live snapshot: for each entry in order,
    /// the live monitor of the same name is looked up; entries without one
    /// are dropped, the others yield their merged monitor. The result
    /// holds exactly the surviving entries, never a monitor absent from
    /// the live snapshot.
    pub fn to_monitors(&self, current: &Vec<Monitor>) -> (r: Vec<Monitor>)
        ensures
            r.deep_view() == spec_merge(self.monitors.deep_view(), current.deep_view()),
    {
        let ghost entries = self.monitors.deep_view();
        let ghost cur = current.deep_view();
        let mut r: Vec<Monitor> = Vec::new();
        let mut i: usize = 0;
        proof {
            assert(entries.take(0).filter_map(merge_entry_of(cur)) =~= Seq::<MonitorV>::empty());
            assert(r.deep_view() =~= Seq::<MonitorV>::empty());
        }
        while i < self.monitors.len()
            invariant
                0 <= i <= self.monitors@.len() == entries.len(),
                entries == self.monitors.deep_view(),
                cur == current.deep_view(),
                r.deep_view() == entries.take(i as int).filter_map(merge_entry_of(cur)),
            decreases self.monitors@.len() - i,
        {
            let ghost prev = r.deep_view();
            let mc = &self.monitors[i];
            match find_monitor(current, &mc.name) {
                Some(j) => {
                    let live = &current[j];
                    let merged = merge_one(mc, live);
                    r.push(merged);
                    proof {
                        assert(r.deep_view() =~= prev.push(
                            spec_merged(entries[i as int], cur[j as int]),
                        ));
                    }
                },
                None => {},
            }
            proof {
                entries.lemma_filter_map_take_succ(merge_entry_of(cur), i as int);
                assert(r.deep_view() =~= entries.take(i + 1).filter_map(merge_entry_of(cur)));
            }
            i = i + 1;
        }
        proof {
            assert(entries.take(entries.len() as int) =~= entries);
        }
        r
    }
}

/// The index of the first live monitor of the given name.
fn find_monitor(current: &Vec<Monitor>, name: &String) -> (r: Option<usize>)
    ensures
        r matches Some(j) ==> 0 <= j < current.deep_view().len() && spec_find_monitor(
            current.deep_view(),
            name@,
        ) == Some(current.deep_view()[j as int]),
        r is None ==> spec_find_monitor(current.deep_view(), name@) is None,
{
    let ghost cur = current.deep_view();
    let mut i: usize = 0;
    while i < current.len()
        invariant
            0 <= i <= current@.len() == cur.len(),
            cur == current.deep_view(),
            forall|j: int| 0 <= j < i ==> #[trigger] cur[j].name != name@,
        decreases current@.len() - i,
    {
        if current[i].name.eq(name) {
            proof {
                lemma_find_monitor_at(cur, name@, i as int);
            }
            return Some(i);
        }
        i = i + 1;
    }
    proof {
        lemma_find_monitor_none(cur, name@);
    }
    None
}

/// Builds the merged monitor of one profile entry and its live monitor.
fn merge_one(mc: &MonitorConfig, live: &Monitor) -> (r: Monitor)
    ensures
        r@ == spec_merged(mc@, live@),
{
    let parsed: Option<(Resolution, u32)> = match &mc.resolution {
        Some(rs) => parse_res(rs.as_str()),
        None => None,
    };
    let resolution: Resolution = match &parsed {
        Some(p) => p.0,
        None => live.resolution,
    };
    let refresh_rate: u32 = match &mc.refresh_rate {
        Some(v) => *v,
        None => match &parsed {
            Some(p) => p.1,
            None => live.refresh_rate,
        },
    };
    let r = Monitor {
        name: mc.name.clone(),
        description: live.description.clone(),
        position: Position { x: mc.position[0], y: mc.position[1] },
        resolution,
        available_resolutions: live.available_resolutions.clone(),
        refresh_rate,
        available_refresh_rates: live.available_refresh_rates.clone(),
        scale: mc.scale,
        transform: Transform::from_hyprland_str(mc.transform.as_str()),
        enabled: mc.enabled,
        primary: mc.primary,
    };
    proof {
        assert(r@ =~= spec_merged(mc@, live@));
    }
    r
}

/// Renders a transform's protocol code as an owned string.
fn transform_code_string(t: &Transform) -> (r: String)
    ensures
        r@ == seq![digit_char(transform_code(*t))],
{
    let code = t.to_hyprland_str();
    let mut s = String::new();
    s.append(code);
    proof {
        assert(s@ =~= seq![digit_char(transform_code(*t))]);
    }
    s
}

/// A merge drops entries without a live monitor of the same name and
/// never introduces one: every merged monitor bears the name of some
/// monitor of the live snapshot, and there are never more merged monitors
/// than profile entries.
pub proof fn lemma_merge_never_fabricates(entries: Seq<MonitorConfigV>, cur: Seq<MonitorV>)
    ensures
        spec_merge(entries, cur).len() <= entries.len(),
        forall|i: int|
            0 <= i < spec_merge(entries, cur).len() ==> exists|j: int|
                0 <= j < cur.len() && #[trigger] spec_merge(entries, cur)[i].name == cur[j].name,
    decreases entries.len(),
{
    let f = merge_entry_of(cur);
    let merged = spec_merge(entries, cur);
    if entries.len() == 0 {
    } else {
        let rest = entries.drop_last();
        lemma_merge_never_fabricates(rest, cur);
        match f(entries.last()) {
            Option::Some(m) => {
                assert(merged == rest.filter_map(f) + seq![m]);
                assert forall|i: int| 0 <= i < merged.len() implies exists|j: int|
                    0 <= j < cur.len() && #[trigger] merged[i].name == cur[j].name by {
                    if i < rest.filter_map(f).len() {
                        assert(merged[i] == rest.filter_map(f)[i]);
                    } else {
                        assert(merged[i] == m);
                        lemma_find_monitor_is_live(cur, entries.last().name);
                        let j = choose|j: int|
                            0 <= j < cur.len() && cur[j] == spec_find_monitor(
                                cur,
                                entries.last().name,
                            )->Some_0 && cur[j].name == entries.last().name;
                        assert(m.name == cur[j].name);
                    }
                }
            },
            Option::None => {
                assert(merged == rest.filter_map(f));
            },
        }
    }
}

} // verus!
