use overlay_core::{overlay_bounds, overlay_bounds_fit, MonitorArea, ScreenRect};

fn rect(left: i32, top: i32, right: i32, bottom: i32) -> ScreenRect {
    ScreenRect { left, top, right, bottom }
}

fn area(monitor: ScreenRect, work: ScreenRect) -> MonitorArea {
    MonitorArea { monitor, work }
}

fn bounds(desktop: (i32, i32, i32, i32), primary: Option<MonitorArea>) -> (i32, i32, i32, i32) {
    assert!(overlay_bounds_fit(desktop, primary));
    overlay_bounds(desktop, primary)
}

#[test]
fn bottom_taskbar_is_excluded() {
    let m = area(rect(0, 0, 1920, 1080), rect(0, 0, 1920, 1040));
    assert_eq!(bounds((0, 0, 1920, 1080), Some(m)), (0, 0, 1920, 1040));
}

#[test]
fn top_taskbar_is_excluded() {
    let m = area(rect(0, 0, 1920, 1080), rect(0, 48, 1920, 1080));
    assert_eq!(bounds((0, 0, 1920, 1080), Some(m)), (0, 48, 1920, 1032));
}

#[test]
fn left_taskbar_is_excluded() {
    let m = area(rect(0, 0, 1920, 1080), rect(62, 0, 1920, 1080));
    assert_eq!(bounds((0, 0, 1920, 1080), Some(m)), (62, 0, 1858, 1080));
}

#[test]
fn right_taskbar_is_excluded() {
    let m = area(rect(0, 0, 2560, 1440), rect(0, 0, 2500, 1440));
    assert_eq!(bounds((0, 0, 2560, 1440), Some(m)), (0, 0, 2500, 1440));
}

#[test]
fn auto_hide_taskbar_leaves_full_desktop() {
    // An auto-hide taskbar does not shrink the work area.
    let full = rect(0, 0, 1920, 1080);
    let m = area(full, full);
    assert_eq!(bounds((0, 0, 1920, 1080), Some(m)), (0, 0, 1920, 1080));
}

#[test]
fn unreadable_monitor_leaves_full_desktop() {
    assert_eq!(bounds((-1920, -200, 3840, 1280), None), (-1920, -200, 3840, 1280));
}

#[test]
fn interior_taskbar_is_not_subtracted() {
    // Primary monitor on the left of a second one; its taskbar on its right
    // edge lies inside the virtual desktop.
    let m = area(rect(0, 0, 1920, 1080), rect(0, 0, 1860, 1080));
    assert_eq!(bounds((0, 0, 3840, 1080), Some(m)), (0, 0, 3840, 1080));
}

#[test]
fn interior_left_taskbar_is_not_subtracted() {
    // A second monitor sits left of the primary one.
    let m = area(rect(0, 0, 1920, 1080), rect(62, 0, 1920, 1080));
    assert_eq!(bounds((-1920, 0, 3840, 1080), Some(m)), (-1920, 0, 3840, 1080));
}

#[test]
fn bottom_taskbar_with_monitor_on_the_left() {
    let m = area(rect(0, 0, 1920, 1080), rect(0, 0, 1920, 1040));
    assert_eq!(bounds((-1920, 0, 3840, 1080), Some(m)), (-1920, 0, 3840, 1040));
}

#[test]
fn taskbars_on_two_edges() {
    let m = area(rect(0, 0, 1920, 1080), rect(40, 0, 1920, 1030));
    assert_eq!(bounds((0, 0, 1920, 1080), Some(m)), (40, 0, 1880, 1030));
}

#[test]
fn overflowing_inputs_are_reported() {
    let m = area(rect(0, 0, 1920, 1080), rect(0, 0, 1900, 1080));
    assert!(!overlay_bounds_fit((i32::MAX - 5, 0, 10, 10), Some(m)));
    assert!(overlay_bounds_fit((i32::MAX - 5, 0, 10, 10), None));
    let wide = area(rect(i32::MIN, 0, 0, 10), rect(i32::MAX - 1, 0, 0, 10));
    assert!(!overlay_bounds_fit((i32::MIN, 0, 10, 10), Some(wide)));
}
