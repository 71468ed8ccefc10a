//! Generation of the compositor's static configuration text: one
//! `monitor=` line per enabled monitor, in snapshot order, syntactically
//! compatible with the live apply command for the same monitor.

use vstd::prelude::*;

use crate::ipc::spec_monitor_spec_str;
use crate::monitor::{Monitor, MonitorV, Transform, resolution_str, transform_code};
use crate::numtext::{centi_2dp, centi_trimmed, digit_char, int_digits, push_centi_2dp,
    push_centi_trimmed, push_i64, push_u64};

verus! {

/// The transform clause of a monitor line: empty for the default
/// orientation, matching the compositor's own omission convention.
pub open spec fn spec_transform_clause(t: Transform) -> Seq<char> {
    if t == Transform::Normal {
        Seq::empty()
    } else {
        ",transform,"@ + seq![digit_char(transform_code(t))]
    }
}

/// The configuration line of one monitor:
/// `monitor={name},{w}x{h}@{hz},{x}x{y},{scale}[,transform,{code}]`,
/// the refresh rate with two decimals and the scale trimmed.
pub open spec fn spec_monitor_line(m: MonitorV) -> Seq<char> {
    "monitor="@ + m.name + ","@ + resolution_str(m.resolution) + "@"@ + centi_2dp(
        m.refresh_rate as nat,
    ) + ","@ + int_digits(m.position.x as int) + "x"@ + int_digits(m.position.y as int) + ","@
        + centi_trimmed(m.scale as nat) + spec_transform_clause(m.transform)
}

/// The configuration line of an enabled monitor; a disabled monitor
/// contributes nothing.
pub open spec fn config_line_of() -> spec_fn(MonitorV) -> Option<Seq<char>> {
    |m: MonitorV|
        if m.enabled {
            Option::Some(spec_monitor_line(m))
        } else {
            Option::None
        }
}

/// The configuration lines of a snapshot: exactly one line per enabled
/// monitor, in snapshot order.
pub open spec fn spec_config_lines(ms: Seq<MonitorV>) -> Seq<Seq<char>> {
    ms.filter_map(config_line_of())
}

/// What one monitor contributes to the configuration text: its line and a
/// newline when enabled, nothing when disabled.
pub open spec fn config_piece_of() -> spec_fn(MonitorV) -> Seq<char> {
    |m: MonitorV|
        if m.enabled {
            spec_monitor_line(m) + "\n"@
        } else {
            Seq::empty()
        }
}

/// The whole generated configuration text of a snapshot.
pub open spec fn spec_config(ms: Seq<MonitorV>) -> Seq<char> {
    ms.flat_map(config_piece_of())
}

/// Renders the configuration line of one monitor, without the newline.
pub fn monitor_line(m: &Monitor) -> (r: String)
    ensures
        r@ == spec_monitor_line(m@),
{
    let mut s = String::new();
    s.append("monitor=");
    s.append(m.name.as_str());
    s.append(",");
    push_u64(&mut s, m.resolution.width as u64);
    s.append("x");
    push_u64(&mut s, m.resolution.height as u64);
    s.append("@");
    push_centi_2dp(&mut s, m.refresh_rate as u64);
    s.append(",");
    push_i64(&mut s, m.position.x as i64);
    s.append("x");
    push_i64(&mut s, m.position.y as i64);
    s.append(",");
    push_centi_trimmed(&mut s, m.scale as u64);
    if !matches!(m.transform, Transform::Normal) {
        s.append(",transform,");
        s.append(m.transform.to_hyprland_str());
    }
    proof {
        reveal_strlit("x");
        assert(s@ =~= spec_monitor_line(m@));
    }
    s
}

/// Renders the configuration lines of a snapshot: one line per enabled
/// monitor, in snapshot order; disabled monitors are omitted entirely.
pub fn generate_config_lines(monitors: &Vec<Monitor>) -> (r: Vec<String>)
    ensures
        r.deep_view() == spec_config_lines(monitors.deep_view()),
{
    let ghost dv = monitors.deep_view();
    let mut r: Vec<String> = Vec::new();
    let mut i: usize = 0;
    proof {
        assert(dv.take(0).filter_map(config_line_of()) =~= Seq::<Seq<char>>::empty());
        assert(r.deep_view() =~= Seq::<Seq<char>>::empty());
    }
    while i < monitors.len()
        invariant
            0 <= i <= monitors@.len() == dv.len(),
            dv == monitors.deep_view(),
            r.deep_view() == dv.take(i as int).filter_map(config_line_of()),
        decreases monitors@.len() - i,
    {
        let ghost prev = r.deep_view();
        if monitors[i].enabled {
            r.push(monitor_line(&monitors[i]));
            proof {
                assert(r.deep_view() =~= prev.push(spec_monitor_line(dv[i as int])));
            }
        }
        proof {
            dv.lemma_filter_map_take_succ(config_line_of(), i as int);
            assert(r.deep_view() =~= dv.take(i + 1).filter_map(config_line_of()));
        }
        i = i + 1;
    }
    proof {
        assert(dv.take(dv.len() as int) =~= dv);
    }
    r
}

/// Renders the whole generated configuration text of a snapshot.
pub fn generate_config(monitors: &Vec<Monitor>) -> (r: String)
    ensures
        r@ == spec_config(monitors.deep_view()),
{
    let ghost dv = monitors.deep_view();
    let mut s = String::new();
    let mut i: usize = 0;
    proof {
        assert(dv.take(0).flat_map(config_piece_of()) =~= Seq::<char>::empty());
        assert(s@ =~= Seq::<char>::empty());
    }
    while i < monitors.len()
        invariant
            0 <= i <= monitors@.len() == dv.len(),
            dv == monitors.deep_view(),
            s@ == dv.take(i as int).flat_map(config_piece_of()),
        decreases monitors@.len() - i,
    {
        let ghost prev = s@;
        if monitors[i].enabled {
            let line = monitor_line(&monitors[i]);
            s.append(line.as_str());
            s.append("\n");
            proof {
                assert(s@ =~= prev + (spec_monitor_line(dv[i as int]) + "\n"@));
            }
        }
        proof {
            dv.lemma_flat_map_take_append(config_piece_of(), i as int);
            assert(s@ =~= dv.take(i + 1).flat_map(config_piece_of()));
        }
        i = i + 1;
    }
    proof {
        assert(dv.take(dv.len() as int) =~= dv);
    }
    s
}

/// The configuration line is the file-based counterpart of the live apply
/// command: for the same monitor it is exactly `monitor=`, the keyword
/// value the IPC client sends, and the transform clause.
pub proof fn lemma_config_line_matches_apply_command(m: MonitorV)
    ensures
        spec_monitor_line(m) == "monitor="@ + spec_monitor_spec_str(m) + spec_transform_clause(
            m.transform,
        ),
{
    assert(spec_monitor_line(m) =~= "monitor="@ + spec_monitor_spec_str(m)
        + spec_transform_clause(m.transform));
}

/// A configuration line as it stands in the generated text: the line and
/// its newline.
pub open spec fn line_with_newline() -> spec_fn(Seq<char>) -> Seq<char> {
    |l: Seq<char>| l + "\n"@
}

/// The generated text is exactly its lines: each configuration line of
/// the snapshot followed by a newline, concatenated in order, and
/// nothing else.
pub proof fn lemma_config_text_is_its_lines(ms: Seq<MonitorV>)
    ensures
        spec_config(ms) == spec_config_lines(ms).map_values(line_with_newline()).flatten(),
    decreases ms.len(),
{
    broadcast use Seq::lemma_flatten_push;
    broadcast use Seq::lemma_push_map_commute;

    let f = config_piece_of();
    let g = config_line_of();
    let nl = line_with_newline();
    if ms.len() == 0 {
        assert(spec_config(ms) =~= Seq::<char>::empty());
        assert(spec_config_lines(ms) =~= Seq::<Seq<char>>::empty());
        assert(spec_config_lines(ms).map_values(nl) =~= Seq::<Seq<char>>::empty());
    } else {
        let rest = ms.drop_last();
        let e = ms.last();
        lemma_config_text_is_its_lines(rest);
        rest.lemma_flat_map_push(f, e);
        assert(rest.push(e) =~= ms);
        if e.enabled {
            assert(ms.filter_map(g) == rest.filter_map(g) + seq![spec_monitor_line(e)]);
            assert(ms.filter_map(g) =~= rest.filter_map(g).push(spec_monitor_line(e)));
            assert(ms.filter_map(g).map_values(nl) == rest.filter_map(g).map_values(nl).push(
                nl(spec_monitor_line(e)),
            ));
            assert(spec_config(ms) =~= spec_config_lines(ms).map_values(nl).flatten());
        } else {
            assert(ms.filter_map(g) == rest.filter_map(g));
            assert(spec_config(ms) =~= rest.flat_map(f) + f(e));
            assert(f(e) =~= Seq::<char>::empty());
            assert(spec_config(ms) =~= spec_config_lines(ms).map_values(nl).flatten());
        }
    }
}

/// The number of enabled monitors in a snapshot.
pub open spec fn count_enabled(ms: Seq<MonitorV>) -> nat {
    ms.filter(|m: MonitorV| m.enabled).len()
}

/// The generated configuration holds exactly one line per enabled monitor,
/// each line the `monitor=` line of its monitor, in snapshot order;
/// a disabled monitor contributes no line at all.
pub proof fn lemma_config_lines_exact(ms: Seq<MonitorV>)
    ensures
        spec_config_lines(ms).len() == count_enabled(ms),
        forall|i: int|
            0 <= i < spec_config_lines(ms).len() ==> #[trigger] spec_config_lines(ms)[i]
                == spec_monitor_line(ms.filter(|m: MonitorV| m.enabled)[i]),
    decreases ms.len(),
{
    reveal(Seq::filter);
    let pred = |m: MonitorV| m.enabled;
    let f = config_line_of();
    if ms.len() == 0 {
        assert(spec_config_lines(ms).len() == 0);
    } else {
        let rest = ms.drop_last();
        lemma_config_lines_exact(rest);
        if ms.last().enabled {
            assert(spec_config_lines(ms) == rest.filter_map(f) + seq![
                spec_monitor_line(ms.last()),
            ]);
            assert(ms.filter(pred) == rest.filter(pred).push(ms.last()));
        } else {
            assert(spec_config_lines(ms) == rest.filter_map(f));
            assert(ms.filter(pred) == rest.filter(pred));
        }
    }
}

} // verus!
