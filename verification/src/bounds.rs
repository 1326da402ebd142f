use vstd::prelude::*;

verus! {

/// A rectangle in physical screen pixels, given by its edges, as Win32 reports
/// monitor rectangles (`right` and `bottom` lie just outside the rectangle).
#[derive(Clone, Copy, Debug, PartialEq, Eq, Structural)]
pub struct ScreenRect {
    pub left: i32,
    pub top: i32,
    pub right: i32,
    pub bottom: i32,
}

/// The primary monitor's full rectangle and its work area, that is the full
/// rectangle without the taskbar strip.
#[derive(Clone, Copy, Debug, PartialEq, Eq, Structural)]
pub struct MonitorArea {
    pub monitor: ScreenRect,
    pub work: ScreenRect,
}

/// Bounds are `(x, y, width, height)` in physical pixels.
pub open spec fn in_i32(v: int) -> bool {
    i32::MIN <= v <= i32::MAX
}

/// The left taskbar inset: the strip between the monitor's left edge and the
/// work area's, when that monitor edge is on the virtual desktop's left edge.
pub open spec fn left_inset(desktop: (i32, i32, i32, i32), m: MonitorArea) -> int {
    if m.work.left > m.monitor.left && m.monitor.left <= desktop.0 {
        m.work.left - m.monitor.left
    } else {
        0
    }
}

/// The top taskbar inset, as `left_inset` for the top edge.
pub open spec fn top_inset(desktop: (i32, i32, i32, i32), m: MonitorArea) -> int {
    if m.work.top > m.monitor.top && m.monitor.top <= desktop.1 {
        m.work.top - m.monitor.top
    } else {
        0
    }
}

/// The right taskbar inset, when the monitor's right edge is on (or beyond)
/// the virtual desktop's right edge.
pub open spec fn right_inset(desktop: (i32, i32, i32, i32), m: MonitorArea) -> int {
    if m.work.right < m.monitor.right && m.monitor.right >= desktop.0 + desktop.2 {
        m.monitor.right - m.work.right
    } else {
        0
    }
}

/// The bottom taskbar inset, as `right_inset` for the bottom edge.
pub open spec fn bottom_inset(desktop: (i32, i32, i32, i32), m: MonitorArea) -> int {
    if m.work.bottom < m.monitor.bottom && m.monitor.bottom >= desktop.1 + desktop.3 {
        m.monitor.bottom - m.work.bottom
    } else {
        0
    }
}

/// The bounds the overlay covers: the virtual desktop `desktop`, inset on each
/// of its outer edges by the primary monitor's taskbar strip lying there.
/// Without monitor information the whole virtual desktop is covered.
pub open spec fn overlay_bounds_spec(
    desktop: (i32, i32, i32, i32),
    primary: Option<MonitorArea>,
) -> (int, int, int, int) {
    match primary {
        None => (desktop.0 as int, desktop.1 as int, desktop.2 as int, desktop.3 as int),
        Some(m) => (
            desktop.0 + left_inset(desktop, m),
            desktop.1 + top_inset(desktop, m),
            desktop.2 - left_inset(desktop, m) - right_inset(desktop, m),
            desktop.3 - top_inset(desktop, m) - bottom_inset(desktop, m),
        ),
    }
}

/// Every `i32` sum and difference that the computation of the bounds performs
/// stays in range.
pub open spec fn overlay_bounds_fit_spec(
    desktop: (i32, i32, i32, i32),
    primary: Option<MonitorArea>,
) -> bool {
    match primary {
        None => true,
        Some(m) => {
            let li = left_inset(desktop, m);
            let ti = top_inset(desktop, m);
            let ri = right_inset(desktop, m);
            let bi = bottom_inset(desktop, m);
            &&& in_i32(li) && in_i32(desktop.0 + li) && in_i32(desktop.2 - li)
            &&& in_i32(ti) && in_i32(desktop.1 + ti) && in_i32(desktop.3 - ti)
            &&& m.work.right < m.monitor.right ==> in_i32(desktop.0 + desktop.2)
            &&& m.work.bottom < m.monitor.bottom ==> in_i32(desktop.1 + desktop.3)
            &&& in_i32(ri) && in_i32(desktop.2 - li - ri)
            &&& in_i32(bi) && in_i32(desktop.3 - ti - bi)
        },
    }
}

/// Whether `overlay_bounds` can compute the bounds for these inputs without
/// leaving the `i32` range.
pub fn overlay_bounds_fit(desktop: (i32, i32, i32, i32), primary: Option<MonitorArea>) -> (r:
    bool)
    ensures
        r == overlay_bounds_fit_spec(desktop, primary),
{
    match primary {
        None => true,
        Some(m) => {
            let (x, y, w, h) = desktop;
            let x = x as i64;
            let y = y as i64;
            let w = w as i64;
            let h = h as i64;
            let full = m.monitor;
            let work = m.work;
            let lo = i32::MIN as i64;
            let hi = i32::MAX as i64;
            let li: i64 = if work.left > full.left && (full.left as i64) <= x {
                work.left as i64 - full.left as i64
            } else {
                0
            };
            let ti: i64 = if work.top > full.top && (full.top as i64) <= y {
                work.top as i64 - full.top as i64
            } else {
                0
            };
            let ri: i64 = if work.right < full.right && (full.right as i64) >= x + w {
                full.right as i64 - work.right as i64
            } else {
                0
            };
            let bi: i64 = if work.bottom < full.bottom && (full.bottom as i64) >= y + h {
                full.bottom as i64 - work.bottom as i64
            } else {
                0
            };
            let fits_i64 = |v: i64| -> (b: bool)
                ensures
                    b == in_i32(v as int),
                { lo <= v && v <= hi };
            fits_i64(li) && fits_i64(x + li) && fits_i64(w - li) && fits_i64(ti) && fits_i64(
                y + ti,
            ) && fits_i64(h - ti) && (!(work.right < full.right) || fits_i64(x + w)) && (!(
            work.bottom < full.bottom) || fits_i64(y + h)) && fits_i64(ri) && fits_i64(
                w - li - ri,
            ) && fits_i64(bi) && fits_i64(h - ti - bi)
        },
    }
}

/// Physical bounds `(x, y, width, height)` the overlay window covers: the
/// virtual desktop `desktop` minus the primary monitor's taskbar strip, where
/// that strip lies on an outer edge of the virtual desktop. A strip on an
/// interior edge is not subtracted, so that the window stays one rectangle.
/// `primary` is `None` when the primary monitor's rectangles could not be read.
pub fn overlay_bounds(desktop: (i32, i32, i32, i32), primary: Option<MonitorArea>) -> (r: (
    i32,
    i32,
    i32,
    i32,
))
    requires
        overlay_bounds_fit_spec(desktop, primary),
    ensures
        (r.0 as int, r.1 as int, r.2 as int, r.3 as int) == overlay_bounds_spec(desktop, primary),
{
    let (mut x, mut y, mut w, mut h) = desktop;
    if let Some(m) = primary {
        let full = m.monitor;
        let work = m.work;
        if work.left > full.left && full.left <= x {
            let inset = work.left - full.left;
            x += inset;
            w -= inset;
        }
        if work.top > full.top && full.top <= y {
            let inset = work.top - full.top;
            y += inset;
            h -= inset;
        }
        if work.right < full.right && full.right >= x + w {
            w -= full.right - work.right;
        }
        if work.bottom < full.bottom && full.bottom >= y + h {
            h -= full.bottom - work.bottom;
        }
    }
    (x, y, w, h)
}

/// The overlay never leaves the virtual desktop: its bounds lie inside
/// `desktop` and are never larger than it.
pub proof fn lemma_overlay_within_desktop(
    desktop: (i32, i32, i32, i32),
    primary: Option<MonitorArea>,
)
    ensures
        ({
            let r = overlay_bounds_spec(desktop, primary);
            &&& desktop.0 <= r.0
            &&& desktop.1 <= r.1
            &&& r.0 + r.2 <= desktop.0 + desktop.2
            &&& r.1 + r.3 <= desktop.1 + desktop.3
            &&& r.2 <= desktop.2
            &&& r.3 <= desktop.3
        }),
{
}

/// When the work area equals the monitor rectangle (no taskbar zone, as with
/// an auto-hide taskbar), the overlay covers the whole virtual desktop.
pub proof fn lemma_no_taskbar_zone_covers_desktop(desktop: (i32, i32, i32, i32), m: MonitorArea)
    requires
        m.work == m.monitor,
    ensures
        overlay_bounds_spec(desktop, Some(m)) == (
            desktop.0 as int,
            desktop.1 as int,
            desktop.2 as int,
            desktop.3 as int,
        ),
{
}

/// Only outer edges of the virtual desktop move: an edge of the overlay
/// differs from the virtual desktop's only where the primary monitor's edge
/// lies on (or beyond) that outer edge and its work area is inset there.
pub proof fn lemma_only_outer_edges_inset(desktop: (i32, i32, i32, i32), m: MonitorArea)
    ensures
        ({
            let r = overlay_bounds_spec(desktop, Some(m));
            &&& r.0 != desktop.0 ==> m.monitor.left <= desktop.0 && m.work.left > m.monitor.left
            &&& r.1 != desktop.1 ==> m.monitor.top <= desktop.1 && m.work.top > m.monitor.top
            &&& r.0 + r.2 != desktop.0 + desktop.2 ==> m.monitor.right >= desktop.0 + desktop.2
                && m.work.right < m.monitor.right
            &&& r.1 + r.3 != desktop.1 + desktop.3 ==> m.monitor.bottom >= desktop.1 + desktop.3
                && m.work.bottom < m.monitor.bottom
        }),
{
}

/// Each edge of the overlay is the virtual desktop's edge moved inwards by
/// exactly the primary monitor's taskbar strip on that side, when the
/// monitor's edge lies on (or beyond) that outer edge of the virtual desktop
/// and its work area is inset there, whatever the monitor's position along the
/// other axis; otherwise the edge is the virtual desktop's.
pub proof fn lemma_overlay_edges(desktop: (i32, i32, i32, i32), m: MonitorArea)
    ensures
        ({
            let r = overlay_bounds_spec(desktop, Some(m));
            let left = desktop.0 as int;
            let top = desktop.1 as int;
            let right = desktop.0 + desktop.2;
            let bottom = desktop.1 + desktop.3;
            &&& r.0 == (if m.work.left > m.monitor.left && m.monitor.left <= left {
                left + (m.work.left - m.monitor.left)
            } else {
                left
            })
            &&& r.1 == (if m.work.top > m.monitor.top && m.monitor.top <= top {
                top + (m.work.top - m.monitor.top)
            } else {
                top
            })
            &&& r.0 + r.2 == (if m.work.right < m.monitor.right && m.monitor.right >= right {
                right - (m.monitor.right - m.work.right)
            } else {
                right
            })
            &&& r.1 + r.3 == (if m.work.bottom < m.monitor.bottom && m.monitor.bottom >= bottom {
                bottom - (m.monitor.bottom - m.work.bottom)
            } else {
                bottom
            })
        }),
{
}

/// Screen-sized inputs always fit: with every coordinate and size within
/// 2^28 pixels of zero, no step of the computation leaves the `i32` range.
pub proof fn lemma_screen_sizes_fit(desktop: (i32, i32, i32, i32), primary: Option<MonitorArea>)
    requires
        -268_435_456 <= desktop.0 <= 268_435_456,
        -268_435_456 <= desktop.1 <= 268_435_456,
        -268_435_456 <= desktop.2 <= 268_435_456,
        -268_435_456 <= desktop.3 <= 268_435_456,
        primary matches Some(m) ==> {
            &&& -268_435_456 <= m.monitor.left <= 268_435_456
            &&& -268_435_456 <= m.monitor.top <= 268_435_456
            &&& -268_435_456 <= m.monitor.right <= 268_435_456
            &&& -268_435_456 <= m.monitor.bottom <= 268_435_456
            &&& -268_435_456 <= m.work.left <= 268_435_456
            &&& -268_435_456 <= m.work.top <= 268_435_456
            &&& -268_435_456 <= m.work.right <= 268_435_456
            &&& -268_435_456 <= m.work.bottom <= 268_435_456
        },
    ensures
        overlay_bounds_fit_spec(desktop, primary),
{
}

/// Without the primary monitor's rectangles the overlay is the virtual desktop.
pub proof fn lemma_unknown_monitor_covers_desktop(desktop: (i32, i32, i32, i32))
    ensures
        overlay_bounds_spec(desktop, None) == (
            desktop.0 as int,
            desktop.1 as int,
            desktop.2 as int,
            desktop.3 as int,
        ),
{
}

} // verus!
