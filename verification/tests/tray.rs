use overlay_core::{tray_menu, TrayItem};

#[test]
fn menu_per_build() {
    assert_eq!(tray_menu(true), vec![TrayItem::Quit, TrayItem::ToggleWatchdog]);
    assert_eq!(tray_menu(false), vec![TrayItem::Quit]);
}

#[test]
fn ids_and_labels() {
    assert_eq!(TrayItem::Quit.id(), "quit");
    assert_eq!(TrayItem::ToggleWatchdog.id(), "toggle-watchdog");
    assert_eq!(TrayItem::Quit.label(true), "Quit");
    assert_eq!(TrayItem::ToggleWatchdog.label(true), "Watchdog: On");
    assert_eq!(TrayItem::ToggleWatchdog.label(false), "Watchdog: Off");
}

#[test]
fn menu_events_by_id() {
    assert_eq!(TrayItem::from_id("quit"), Some(TrayItem::Quit));
    assert_eq!(TrayItem::from_id("toggle-watchdog"), Some(TrayItem::ToggleWatchdog));
    assert_eq!(TrayItem::from_id("Quit"), None);
    assert_eq!(TrayItem::from_id(""), None);
    assert_eq!(TrayItem::from_id("quit "), None);
    for item in [TrayItem::Quit, TrayItem::ToggleWatchdog] {
        assert_eq!(TrayItem::from_id(item.id()), Some(item));
    }
}
