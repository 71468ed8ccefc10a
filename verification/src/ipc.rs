//! The compositor IPC protocol: the request strings sent over the control
//! socket, the resolution of the socket path from the session environment,
//! and the reading of the monitor-list response into the monitor model.
//!
//! The socket itself is plain blocking I/O and lives outside the library;
//! everything here is the exact text of the protocol and the exact shape
//! of the data that crosses it.

use vstd::prelude::*;

use crate::monitor::{Monitor, MonitorV, Position, Resolution, Transform, resolution_str};
use crate::numtext::{all_digits, centi_2dp, centi_trimmed, dec_value, find_char, find_from,
    int_digits, int_value, is_int_seq, parse_centi, parse_i32, parse_u32, push_centi_2dp,
    push_centi_trimmed, push_i64, push_u64, spec_parse_centi, trim_bounds, trimmed};

verus! {

/// The compositor IPC client: builds the protocol requests for a snapshot
/// and decodes the query response, while the caller moves the bytes.
pub struct HyprlandClient {}

/// The keyword value applied for one monitor:
/// `{name},{w}x{h}@{hz},{x}x{y},{scale}`, the refresh rate with two
/// decimals and the scale trimmed — the live counterpart of the generated
/// configuration line.
pub open spec fn spec_monitor_spec_str(m: MonitorV) -> Seq<char> {
    m.name + ","@ + resolution_str(m.resolution) + "@"@ + centi_2dp(m.refresh_rate as nat) + ","@
        + int_digits(m.position.x as int) + "x"@ + int_digits(m.position.y as int) + ","@
        + centi_trimmed(m.scale as nat)
}

/// The full request that applies one monitor's configuration.
pub open spec fn spec_keyword_request(m: MonitorV) -> Seq<char> {
    "/keyword monitor "@ + spec_monitor_spec_str(m)
}

/// What one monitor contributes to an apply pass: its keyword request when
/// enabled, nothing when disabled.
pub open spec fn keyword_request_of() -> spec_fn(MonitorV) -> Option<Seq<char>> {
    |m: MonitorV|
        if m.enabled {
            Option::Some(spec_keyword_request(m))
        } else {
            Option::None
        }
}

/// The requests of an apply pass: one per enabled monitor, in snapshot
/// order; disabled monitors are skipped entirely.
pub open spec fn spec_apply_requests(ms: Seq<MonitorV>) -> Seq<Seq<char>> {
    ms.filter_map(keyword_request_of())
}

impl HyprlandClient {
    /// A client; the protocol needs no state.
    pub fn new() -> (r: HyprlandClient) {
        HyprlandClient {  }
    }

    /// The read-only request for the monitor list as JSON.
    pub fn query_monitors_command(&self) -> (r: &'static str)
        ensures
            r@ == "j/monitors"@,
    {
        "j/monitors"
    }

    /// Renders the keyword request that applies one monitor.
    pub fn keyword_request(&self, m: &Monitor) -> (r: String)
        ensures
            r@ == spec_keyword_request(m@),
    {
        let mut s = String::new();
        s.append("/keyword monitor ");
        s.append(m.name.as_str());
        s.append(",");
        push_u64(&mut s, m.resolution.width as u64);
        s.append("x");
        push_u64(&mut s, m.resolution.height as u64);
        s.append("@");
        push_centi_2dp(&mut s, m.refresh_rate as u64);
        s.append(",");
        push_i64(&mut s, m.position.x as i64);
        s.append("x");
        push_i64(&mut s, m.position.y as i64);
        s.append(",");
        push_centi_trimmed(&mut s, m.scale as u64);
        proof {
            reveal_strlit("x");
            assert(s@ =~= spec_keyword_request(m@));
        }
        s
    }

    /// Renders the whole apply pass of a snapshot: one request per enabled
    /// monitor, in snapshot order. The caller sends them in this order,
    /// each awaited before the next, and stops at the first failure.
    pub fn apply_requests(&self, monitors: &Vec<Monitor>) -> (r: Vec<String>)
        ensures
            r.deep_view() == spec_apply_requests(monitors.deep_view()),
    {
        let ghost dv = monitors.deep_view();
        let mut r: Vec<String> = Vec::new();
        let mut i: usize = 0;
        proof {
            assert(dv.take(0).filter_map(keyword_request_of()) =~= Seq::<Seq<char>>::empty());
            assert(r.deep_view() =~= Seq::<Seq<char>>::empty());
        }
        while i < monitors.len()
            invariant
                0 <= i <= monitors@.len() == dv.len(),
                dv == monitors.deep_view(),
                r.deep_view() == dv.take(i as int).filter_map(keyword_request_of()),
            decreases monitors@.len() - i,
        {
            let ghost prev = r.deep_view();
            if monitors[i].enabled {
                r.push(self.keyword_request(&monitors[i]));
                proof {
                    assert(r.deep_view() =~= prev.push(spec_keyword_request(dv[i as int])));
                }
            }
            proof {
                dv.lemma_filter_map_take_succ(keyword_request_of(), i as int);
                assert(r.deep_view() =~= dv.take(i + 1).filter_map(keyword_request_of()));
            }
            i = i + 1;
        }
        proof {
            assert(dv.take(dv.len() as int) =~= dv);
        }
        r
    }
}

/// The session-relative path of the compositor's control socket.
pub open spec fn spec_socket_rel_path(sig: Seq<char>) -> Seq<char> {
    "hypr/"@ + sig + "/.socket.sock"@
}

/// The candidate socket paths for a session signature, in resolution
/// order: under the runtime directory when one is advertised, then under
/// the fixed temporary directory. The caller takes the first that exists
/// on disk; existence alone decides availability.
pub fn socket_candidate_paths(runtime_dir: Option<&str>, sig: &str) -> (r: Vec<String>)
    ensures
        runtime_dir matches Some(rd) ==> r.deep_view() =~= seq![
            rd@ + "/"@ + spec_socket_rel_path(sig@),
            "/tmp/"@ + spec_socket_rel_path(sig@),
        ],
        runtime_dir is None ==> r.deep_view() =~= seq!["/tmp/"@ + spec_socket_rel_path(sig@)],
{
    let mut r: Vec<String> = Vec::new();
    match runtime_dir {
        Some(rd) => {
            let mut p = String::new();
            p.append(rd);
            p.append("/");
            append_rel_path(&mut p, sig);
            r.push(p);
        },
        None => {},
    }
    let mut q = String::new();
    q.append("/tmp/");
    append_rel_path(&mut q, sig);
    r.push(q);
    r
}

/// Appends the session-relative socket path to a directory prefix.
fn append_rel_path(s: &mut String, sig: &str)
    ensures
        final(s)@ == old(s)@ + spec_socket_rel_path(sig@),
{
    s.append("hypr/");
    s.append(sig);
    s.append("/.socket.sock");
    proof {
        assert(final(s)@ =~= old(s)@ + spec_socket_rel_path(sig@));
    }
}

/// One monitor descriptor as the query response reports it, with the
/// refresh rate and scale already carried in hundredths.
#[derive(Debug)]
pub struct MonitorDescriptor {
    pub name: String,
    pub description: String,
    pub x: i32,
    pub y: i32,
    pub width: u32,
    pub height: u32,
    /// Refresh rate in centihertz.
    pub refresh_rate: u32,
    /// Scale in hundredths.
    pub scale: u32,
    pub transform: Transform,
    /// Whether the output is powered; it becomes the enabled flag.
    pub dpms_status: bool,
    /// Whether the output has focus; it becomes the primary flag.
    pub focused: bool,
}

/// The mathematical value of a monitor descriptor.
#[verifier::ext_equal]
pub ghost struct MonitorDescriptorV {
    pub name: Seq<char>,
    pub description: Seq<char>,
    pub x: i32,
    pub y: i32,
    pub width: u32,
    pub height: u32,
    pub refresh_rate: u32,
    pub scale: u32,
    pub transform: Transform,
    pub dpms_status: bool,
    pub focused: bool,
}

impl View for MonitorDescriptor {
    type V = MonitorDescriptorV;

    open spec fn view(&self) -> MonitorDescriptorV {
        MonitorDescriptorV {
            name: self.name@,
            description: self.description@,
            x: self.x,
            y: self.y,
            width: self.width,
            height: self.height,
            refresh_rate: self.refresh_rate,
            scale: self.scale,
            transform: self.transform,
            dpms_status: self.dpms_status,
            focused: self.focused,
        }
    }
}

impl DeepView for MonitorDescriptor {
    type V = MonitorDescriptorV;

    open spec fn deep_view(&self) -> MonitorDescriptorV {
        self.view()
    }
}

/// The monitor a descriptor denotes: the selectable mode lists are each
/// the one current mode, since the query does not expose the full list.
pub open spec fn spec_monitor_of_descriptor(d: MonitorDescriptorV) -> MonitorV {
    MonitorV {
        name: d.name,
        description: d.description,
        position: Position { x: d.x, y: d.y },
        resolution: Resolution { width: d.width, height: d.height },
        available_resolutions: seq![Resolution { width: d.width, height: d.height }],
        refresh_rate: d.refresh_rate,
        available_refresh_rates: seq![d.refresh_rate],
        scale: d.scale,
        transform: d.transform,
        enabled: d.dpms_status,
        primary: d.focused,
    }
}

/// Whether no descriptor reports itself focused.
pub open spec fn no_descriptor_focused(ds: Seq<MonitorDescriptorV>) -> bool {
    forall|j: int| 0 <= j < ds.len() ==> !(#[trigger] ds[j]).focused
}

/// The snapshot a query response denotes: each descriptor's monitor, and
/// when none reports itself focused, the first monitor is designated
/// primary instead, so a non-empty snapshot never has zero primaries.
pub open spec fn spec_monitors_of_descriptors(ds: Seq<MonitorDescriptorV>) -> Seq<MonitorV> {
    Seq::new(
        ds.len(),
        |i: int|
            {
                let m = spec_monitor_of_descriptor(ds[i]);
                if i == 0 && no_descriptor_focused(ds) {
                    MonitorV { primary: true, ..m }
                } else {
                    m
                }
            },
    )
}

/// Builds the snapshot a query response denotes.
pub fn monitors_from_descriptors(descs: &Vec<MonitorDescriptor>) -> (r: Vec<Monitor>)
    ensures
        r.deep_view() == spec_monitors_of_descriptors(descs.deep_view()),
{
    let ghost ds = descs.deep_view();
    let mut any_focused = false;
    let mut i: usize = 0;
    while i < descs.len()
        invariant
            0 <= i <= descs@.len() == ds.len(),
            ds == descs.deep_view(),
            any_focused <==> exists|j: int| 0 <= j < i && (#[trigger] ds[j]).focused,
        decreases descs@.len() - i,
    {
        if descs[i].focused {
            any_focused = true;
            proof {
                assert(ds[i as int].focused);
            }
        } else {
            proof {
                assert(!ds[i as int].focused);
            }
        }
        i = i + 1;
    }
    let fallback = !any_focused;
    let mut r: Vec<Monitor> = Vec::new();
    let mut k: usize = 0;
    while k < descs.len()
        invariant
            0 <= k <= descs@.len() == ds.len(),
            ds == descs.deep_view(),
            fallback <==> no_descriptor_focused(ds),
            r@.len() == k,
            forall|j: int|
                0 <= j < k ==> #[trigger] r@[j]@ == spec_monitors_of_descriptors(ds)[j],
        decreases descs@.len() - k,
    {
        let d = &descs[k];
        let primary = d.focused || (fallback && k == 0);
        let m = Monitor {
            name: d.name.clone(),
            description: d.description.clone(),
            position: Position { x: d.x, y: d.y },
            resolution: Resolution { width: d.width, height: d.height },
            available_resolutions: vec![Resolution { width: d.width, height: d.height }],
            refresh_rate: d.refresh_rate,
            available_refresh_rates: vec![d.refresh_rate],
            scale: d.scale,
            transform: d.transform,
            enabled: d.dpms_status,
            primary,
        };
        proof {
            if fallback && k == 0 {
                assert(!ds[k as int].focused);
            }
            assert(m@ =~= spec_monitors_of_descriptors(ds)[k as int]);
        }
        r.push(m);
        k = k + 1;
    }
    proof {
        assert(r.deep_view() =~= spec_monitors_of_descriptors(ds));
    }
    r
}

/// Parses a signed decimal with blanks allowed at either end.
fn parse_i32_trimmed(s: &str) -> (r: Option<i32>)
    ensures
        r is Some <==> is_int_seq(trimmed(s@)) && i32::MIN <= int_value(trimmed(s@)) <= i32::MAX,
        r matches Some(v) ==> v == int_value(trimmed(s@)),
{
    let (lo, hi) = trim_bounds(s);
    let t = s.substring_char(lo, hi);
    proof {
        assert(t@ == trimmed(s@));
    }
    parse_i32(t)
}

/// Parses an unsigned decimal with blanks allowed at either end.
fn parse_u32_trimmed(s: &str) -> (r: Option<u32>)
    ensures
        r is Some <==> trimmed(s@).len() > 0 && all_digits(trimmed(s@)) && dec_value(trimmed(s@))
            <= u32::MAX,
        r matches Some(v) ==> v == dec_value(trimmed(s@)),
{
    let (lo, hi) = trim_bounds(s);
    let t = s.substring_char(lo, hi);
    proof {
        assert(t@ == trimmed(s@));
    }
    parse_u32(t)
}

/// The separator a position string splits at: the first comma, else the
/// first underscore, else the first `x`; -1 when none occurs.
pub open spec fn position_sep(t: Seq<char>) -> int {
    if find_from(t, ',', 0) >= 0 {
        find_from(t, ',', 0)
    } else if find_from(t, '_', 0) >= 0 {
        find_from(t, '_', 0)
    } else {
        find_from(t, 'x', 0)
    }
}

/// A position string read as two signed decimals around the separator,
/// every part with blanks allowed at its ends.
pub open spec fn spec_parse_position(s: Seq<char>) -> Option<(i32, i32)> {
    let t = trimmed(s);
    let sep = position_sep(t);
    if sep < 0 {
        Option::None
    } else {
        let xs = trimmed(t.take(sep));
        let ys = trimmed(t.skip(sep + 1));
        if is_int_seq(xs) && i32::MIN <= int_value(xs) <= i32::MAX && is_int_seq(ys) && i32::MIN
            <= int_value(ys) <= i32::MAX {
            Option::Some((int_value(xs) as i32, int_value(ys) as i32))
        } else {
            Option::None
        }
    }
}

/// Parses a position string `"{x},{y}"` (or with `_` or `x` as the
/// separator), exactly as [`spec_parse_position`] reads it.
#[verifier::loop_isolation(false)]
pub fn parse_position(s: &str) -> (r: Option<(i32, i32)>)
    ensures
        r == spec_parse_position(s@),
{
    let (lo, hi) = trim_bounds(s);
    let t = s.substring_char(lo, hi);
    proof {
        assert(t@ == trimmed(s@));
    }
    let tlen = t.unicode_len();
    let sep: usize = match find_char(t, ',', 0) {
        Some(i) => i,
        None => match find_char(t, '_', 0) {
            Some(i) => i,
            None => match find_char(t, 'x', 0) {
                Some(i) => i,
                None => {
                    return None;
                },
            },
        },
    };
    proof {
        assert(sep as int == position_sep(t@));
    }
    let xs = t.substring_char(0, sep);
    let ys = t.substring_char(sep + 1, tlen);
    proof {
        assert(xs@ =~= t@.take(position_sep(t@)));
        assert(ys@ =~= t@.skip(position_sep(t@) + 1));
    }
    let x = match parse_i32_trimmed(xs) {
        Some(v) => v,
        None => {
            return None;
        },
    };
    let y = match parse_i32_trimmed(ys) {
        Some(v) => v,
        None => {
            return None;
        },
    };
    Some((x, y))
}

/// A resolution-and-refresh string read as `"{w}x{h}"` or
/// `"{w}x{h}@{hz}"`: the parts around the first `x` must be unsigned
/// decimals; the refresh rate after the first `@` is read into
/// centihertz and stands at 60 hertz when absent or unparsable. Blanks
/// are allowed around every part.
pub open spec fn spec_parse_res_refresh(s: Seq<char>) -> Option<(u32, u32, u32)> {
    let t = trimmed(s);
    let at = find_from(t, '@', 0);
    let res = if at < 0 {
        t
    } else {
        t.take(at)
    };
    let x = find_from(res, 'x', 0);
    if x < 0 {
        Option::None
    } else {
        let ws = trimmed(res.take(x));
        let hs = trimmed(res.skip(x + 1));
        if ws.len() > 0 && all_digits(ws) && dec_value(ws) <= u32::MAX && hs.len() > 0
            && all_digits(hs) && dec_value(hs) <= u32::MAX {
            let hz = if at < 0 {
                6000
            } else {
                match spec_parse_centi(trimmed(t.skip(at + 1))) {
                    Option::Some(v) => v,
                    Option::None => 6000,
                }
            };
            Option::Some((dec_value(ws) as u32, dec_value(hs) as u32, hz))
        } else {
            Option::None
        }
    }
}

/// Parses a resolution-and-refresh string into a resolution and a rate in
/// centihertz, exactly as [`spec_parse_res_refresh`] reads it.
#[verifier::loop_isolation(false)]
pub fn parse_resolution_refresh(s: &str) -> (r: Option<(Resolution, u32)>)
    ensures
        spec_parse_res_refresh(s@) matches Some(p) ==> r == Some(
            (Resolution { width: p.0, height: p.1 }, p.2),
        ),
        spec_parse_res_refresh(s@) is None ==> r is None,
{
    let (lo, hi) = trim_bounds(s);
    let t = s.substring_char(lo, hi);
    proof {
        assert(t@ == trimmed(s@));
    }
    let tlen = t.unicode_len();
    let at = find_char(t, '@', 0);
    let res = match at {
        Some(i) => t.substring_char(0, i),
        None => t,
    };
    proof {
        match at {
            Some(i) => {
                assert(res@ =~= t@.take(find_from(t@, '@', 0)));
            },
            None => {},
        }
    }
    let x = match find_char(res, 'x', 0) {
        Some(i) => i,
        None => {
            return None;
        },
    };
    let ws = res.substring_char(0, x);
    let hs = res.substring_char(x + 1, res.unicode_len());
    proof {
        assert(ws@ =~= res@.take(find_from(res@, 'x', 0)));
        assert(hs@ =~= res@.skip(find_from(res@, 'x', 0) + 1));
    }
    let width = match parse_u32_trimmed(ws) {
        Some(v) => v,
        None => {
            return None;
        },
    };
    let height = match parse_u32_trimmed(hs) {
        Some(v) => v,
        None => {
            return None;
        },
    };
    let hz: u32 = match at {
        Some(i) => {
            let hz_s = t.substring_char(i + 1, tlen);
            proof {
                assert(hz_s@ =~= t@.skip(find_from(t@, '@', 0) + 1));
            }
            let (hlo, hhi) = trim_bounds(hz_s);
            let ht = hz_s.substring_char(hlo, hhi);
            proof {
                assert(ht@ == trimmed(hz_s@));
            }
            match parse_centi(ht) {
                Some(v) => v,
                None => 6000,
            }
        },
        None => 6000,
    };
    Some((Resolution { width, height }, hz))
}

/// A non-empty decoded snapshot never has zero primaries: some monitor is
/// primary, by report or by the first-monitor fallback.
pub proof fn lemma_query_never_zero_primaries(ds: Seq<MonitorDescriptorV>)
    requires
        ds.len() > 0,
    ensures
        exists|i: int|
            0 <= i < spec_monitors_of_descriptors(ds).len() && (
            #[trigger] spec_monitors_of_descriptors(ds)[i]).primary,
{
    let ms = spec_monitors_of_descriptors(ds);
    if no_descriptor_focused(ds) {
        assert(ms[0].primary);
    } else {
        let j = choose|j: int| 0 <= j < ds.len() && (#[trigger] ds[j]).focused;
        assert(ms[j].primary);
    }
}

} // verus!
