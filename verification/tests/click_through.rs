use overlay_core::ClickThrough;

#[test]
fn should_ignore_follows_the_cursor() {
    assert!(ClickThrough::should_ignore(None));
    assert!(ClickThrough::should_ignore(Some(false)));
    assert!(!ClickThrough::should_ignore(Some(true)));
}

#[test]
fn writes_only_on_change() {
    let mut c = ClickThrough::new();
    assert_eq!(c.last_applied(), None);
    assert_eq!(c.step(Some(false)), Some(true));
    assert_eq!(c.step(Some(false)), None);
    assert_eq!(c.step(None), None);
    assert_eq!(c.step(Some(true)), Some(false));
    assert_eq!(c.last_applied(), Some(false));
    assert_eq!(c.step(Some(true)), None);
    assert_eq!(c.step(None), Some(true));
    assert_eq!(c.last_applied(), Some(true));
}

#[test]
fn first_tick_always_writes() {
    let mut c = ClickThrough::new();
    assert_eq!(c.step(Some(true)), Some(false));
}
