//! The layout fitter: a uniform scale and translation under which a whole
//! snapshot's monitor rectangles fit inside a bounded rendering region
//! while keeping their relative positions.
//!
//! Scales are carried in thousandths, so the fit is computed exactly in
//! integers: a scale of 1000 means one region cell per compositor pixel.

use vstd::prelude::*;

use crate::monitor::{Monitor, MonitorV};

verus! {

/// The lesser of two integers.
pub open spec fn imin(a: int, b: int) -> int {
    if a <= b {
        a
    } else {
        b
    }
}

/// The greater of two integers.
pub open spec fn imax(a: int, b: int) -> int {
    if a >= b {
        a
    } else {
        b
    }
}

/// The left edge of the bounding box of a snapshot.
pub open spec fn min_x_of(ms: Seq<MonitorV>) -> int
    decreases ms.len(),
{
    if ms.len() <= 1 {
        if ms.len() == 0 {
            0
        } else {
            ms[0].position.x as int
        }
    } else {
        imin(min_x_of(ms.drop_last()), ms.last().position.x as int)
    }
}

/// The top edge of the bounding box of a snapshot.
pub open spec fn min_y_of(ms: Seq<MonitorV>) -> int
    decreases ms.len(),
{
    if ms.len() <= 1 {
        if ms.len() == 0 {
            0
        } else {
            ms[0].position.y as int
        }
    } else {
        imin(min_y_of(ms.drop_last()), ms.last().position.y as int)
    }
}

/// The right edge of the bounding box: the greatest `x + width`.
pub open spec fn max_x_of(ms: Seq<MonitorV>) -> int
    decreases ms.len(),
{
    if ms.len() <= 1 {
        if ms.len() == 0 {
            0
        } else {
            ms[0].position.x + ms[0].resolution.width
        }
    } else {
        imax(max_x_of(ms.drop_last()), ms.last().position.x + ms.last().resolution.width)
    }
}

/// The bottom edge of the bounding box: the greatest `y + height`.
pub open spec fn max_y_of(ms: Seq<MonitorV>) -> int
    decreases ms.len(),
{
    if ms.len() <= 1 {
        if ms.len() == 0 {
            0
        } else {
            ms[0].position.y + ms[0].resolution.height
        }
    } else {
        imax(max_y_of(ms.drop_last()), ms.last().position.y + ms.last().resolution.height)
    }
}

/// The fitted scale in thousandths: the tighter of the two per-axis ratios,
/// clamped to [0.01, 10.0] so it is never zero and never unbounded.
/// Both bounding-box extents are floored at one pixel first.
pub open spec fn spec_fit_scale(ms: Seq<MonitorV>, region_w: u16, region_h: u16) -> int {
    let tw = imax(max_x_of(ms) - min_x_of(ms), 1);
    let th = imax(max_y_of(ms) - min_y_of(ms), 1);
    let sx = region_w * 1000 / tw;
    let sy = region_h * 1000 / th;
    imin(imax(imin(sx, sy), 10), 10000)
}

/// A computed fit: the uniform scale in thousandths and the snapshot's
/// bounding box in compositor pixel space.
#[derive(Clone, Copy, Debug, PartialEq, Eq, Structural)]
pub struct LayoutFit {
    pub scale_milli: u32,
    pub min_x: i64,
    pub min_y: i64,
    pub max_x: i64,
    pub max_y: i64,
}

/// Computes the uniform scale and the bounding box under which the whole
/// snapshot fits the given region. An empty snapshot fits at scale one
/// with a degenerate box at the origin.
pub fn scale_and_bounds(monitors: &Vec<Monitor>, region_w: u16, region_h: u16) -> (r: LayoutFit)
    ensures
        monitors.deep_view().len() == 0 ==> r == (LayoutFit {
            scale_milli: 1000,
            min_x: 0,
            min_y: 0,
            max_x: 0,
            max_y: 0,
        }),
        monitors.deep_view().len() > 0 ==> {
            let dv = monitors.deep_view();
            &&& r.min_x == min_x_of(dv)
            &&& r.min_y == min_y_of(dv)
            &&& r.max_x == max_x_of(dv)
            &&& r.max_y == max_y_of(dv)
            &&& r.scale_milli == spec_fit_scale(dv, region_w, region_h)
        },
        10 <= r.scale_milli <= 10000 || r.scale_milli == 1000,
{
    let ghost dv = monitors.deep_view();
    if monitors.len() == 0 {
        return LayoutFit { scale_milli: 1000, min_x: 0, min_y: 0, max_x: 0, max_y: 0 };
    }
    let first = &monitors[0];
    let mut min_x: i64 = first.position.x as i64;
    let mut min_y: i64 = first.position.y as i64;
    let mut max_x: i64 = first.position.x as i64 + first.resolution.width as i64;
    let mut max_y: i64 = first.position.y as i64 + first.resolution.height as i64;
    let mut i: usize = 1;
    proof {
        assert(dv.take(1).len() == 1);
        assert(dv.take(1)[0] == dv[0]);
    }
    while i < monitors.len()
        invariant
            1 <= i <= monitors@.len() == dv.len(),
            dv == monitors.deep_view(),
            min_x == min_x_of(dv.take(i as int)),
            min_y == min_y_of(dv.take(i as int)),
            max_x == max_x_of(dv.take(i as int)),
            max_y == max_y_of(dv.take(i as int)),
            i32::MIN <= min_x <= i32::MAX,
            i32::MIN <= min_y <= i32::MAX,
            i32::MIN <= max_x <= 0x1_8000_0000i64,
            i32::MIN <= max_y <= 0x1_8000_0000i64,
        decreases monitors@.len() - i,
    {
        let m = &monitors[i];
        let x2: i64 = m.position.x as i64 + m.resolution.width as i64;
        let y2: i64 = m.position.y as i64 + m.resolution.height as i64;
        if (m.position.x as i64) < min_x {
            min_x = m.position.x as i64;
        }
        if (m.position.y as i64) < min_y {
            min_y = m.position.y as i64;
        }
        if x2 > max_x {
            max_x = x2;
        }
        if y2 > max_y {
            max_y = y2;
        }
        proof {
            assert(dv.take(i + 1).drop_last() =~= dv.take(i as int));
            assert(dv.take(i + 1).last() == dv[i as int]);
        }
        i = i + 1;
    }
    proof {
        assert(dv.take(dv.len() as int) =~= dv);
    }
    let total_w: i64 = if max_x - min_x >= 1 {
        max_x - min_x
    } else {
        1
    };
    let total_h: i64 = if max_y - min_y >= 1 {
        max_y - min_y
    } else {
        1
    };
    let sx: i64 = region_w as i64 * 1000 / total_w;
    let sy: i64 = region_h as i64 * 1000 / total_h;
    let smaller: i64 = if sx <= sy {
        sx
    } else {
        sy
    };
    let clamped: i64 = if smaller < 10 {
        10
    } else if smaller > 10000 {
        10000
    } else {
        smaller
    };
    LayoutFit { scale_milli: clamped as u32, min_x, min_y, max_x, max_y }
}

/// The rendered rectangle of one monitor within the region, before the
/// minimum-size floor and clipping: position and size scaled uniformly,
/// relative to the bounding box origin.
pub open spec fn scaled_cell(m: MonitorV, fit: LayoutFit) -> (int, int, int, int) {
    let rel_x = imax(m.position.x - fit.min_x, 0);
    let rel_y = imax(m.position.y - fit.min_y, 0);
    (
        rel_x * fit.scale_milli / 1000,
        rel_y * fit.scale_milli / 1000,
        m.resolution.width * fit.scale_milli / 1000,
        m.resolution.height * fit.scale_milli / 1000,
    )
}

/// The minimum rendered width of a monitor box, so labels stay legible.
pub const MIN_BOX_W: u16 = 12;

/// The minimum rendered height of a monitor box.
pub const MIN_BOX_H: u16 = 4;

/// The visible rectangle of one monitor: the scaled cell, floored at the
/// minimum box size and clipped to the region; nothing when the cell
/// starts outside the region.
pub open spec fn spec_monitor_cell(m: MonitorV, fit: LayoutFit, region_w: u16, region_h: u16) -> Option<
    (int, int, int, int),
> {
    let (cx, cy, cw, ch) = scaled_cell(m, fit);
    if cx >= region_w || cy >= region_h {
        Option::None
    } else {
        let fw = imax(cw, MIN_BOX_W as int);
        let fh = imax(ch, MIN_BOX_H as int);
        Option::Some((cx, cy, imin(fw, region_w - cx), imin(fh, region_h - cy)))
    }
}

/// Computes the visible rectangle of one monitor inside the region.
/// A returned rectangle never exceeds the region on either axis.
pub fn monitor_cell(m: &Monitor, fit: &LayoutFit, region_w: u16, region_h: u16) -> (r: Option<
    (u16, u16, u16, u16),
>)
    requires
        fit.scale_milli <= 10000,
        i32::MIN <= fit.min_x <= i32::MAX,
        i32::MIN <= fit.min_y <= i32::MAX,
    ensures
        r matches Some(c) ==> Some((c.0 as int, c.1 as int, c.2 as int, c.3 as int))
            == spec_monitor_cell(m@, *fit, region_w, region_h),
        r is None ==> spec_monitor_cell(m@, *fit, region_w, region_h) is None,
        r matches Some(c) ==> c.0 + c.2 <= region_w && c.1 + c.3 <= region_h,
{
    let rel_x: i64 = if m.position.x as i64 >= fit.min_x {
        m.position.x as i64 - fit.min_x
    } else {
        0
    };
    let rel_y: i64 = if m.position.y as i64 >= fit.min_y {
        m.position.y as i64 - fit.min_y
    } else {
        0
    };
    let sm: i64 = fit.scale_milli as i64;
    proof {
        assert(0 <= rel_x as int * sm <= 0xa_0000_0000_0000) by (nonlinear_arith)
            requires
                0 <= rel_x <= 0x1_0000_0000i64,
                0 <= sm <= 10000,
        ;
        assert(0 <= rel_y as int * sm <= 0xa_0000_0000_0000) by (nonlinear_arith)
            requires
                0 <= rel_y <= 0x1_0000_0000i64,
                0 <= sm <= 10000,
        ;
        assert(0 <= m.resolution.width as int * sm <= 0xa_0000_0000_0000) by (nonlinear_arith)
            requires
                0 <= m.resolution.width <= 0x1_0000_0000,
                0 <= sm <= 10000,
        ;
        assert(0 <= m.resolution.height as int * sm <= 0xa_0000_0000_0000) by (nonlinear_arith)
            requires
                0 <= m.resolution.height <= 0x1_0000_0000,
                0 <= sm <= 10000,
        ;
    }
    let cx: i64 = rel_x * sm / 1000;
    let cy: i64 = rel_y * sm / 1000;
    let cw: i64 = m.resolution.width as i64 * sm / 1000;
    let ch: i64 = m.resolution.height as i64 * sm / 1000;
    if cx >= region_w as i64 || cy >= region_h as i64 {
        return None;
    }
    let fw: i64 = if cw >= MIN_BOX_W as i64 {
        cw
    } else {
        MIN_BOX_W as i64
    };
    let fh: i64 = if ch >= MIN_BOX_H as i64 {
        ch
    } else {
        MIN_BOX_H as i64
    };
    let bw: i64 = if fw <= region_w as i64 - cx {
        fw
    } else {
        region_w as i64 - cx
    };
    let bh: i64 = if fh <= region_h as i64 - cy {
        fh
    } else {
        region_h as i64 - cy
    };
    Some((cx as u16, cy as u16, bw as u16, bh as u16))
}

} // verus!
