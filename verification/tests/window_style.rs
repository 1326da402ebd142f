use overlay_core::toolwindow_style_update;

const TOOLWINDOW: isize = 0x80;

#[test]
fn failed_read_writes_nothing() {
    assert_eq!(toolwindow_style_update(0, TOOLWINDOW), None);
}

#[test]
fn bit_present_writes_nothing() {
    assert_eq!(toolwindow_style_update(0x0808_0088, TOOLWINDOW), None);
    assert_eq!(toolwindow_style_update(TOOLWINDOW, TOOLWINDOW), None);
}

#[test]
fn bit_missing_is_added() {
    assert_eq!(toolwindow_style_update(0x0808_0028, TOOLWINDOW), Some(0x0808_00a8));
    let next = toolwindow_style_update(0x20, TOOLWINDOW).unwrap();
    assert_eq!(next, 0xa0);
    assert_eq!(toolwindow_style_update(next, TOOLWINDOW), None);
}

#[test]
fn negative_styles() {
    assert_eq!(toolwindow_style_update(-256, TOOLWINDOW), Some(-256 | 0x80));
    assert_eq!(toolwindow_style_update(-1, TOOLWINDOW), None);
}
