//! Decision logic of a click-through desktop overlay: the rectangle the
//! overlay window covers, the hit-region table, the click-through toggle, the
//! tool-window style keeper and the liveness watchdog.

pub mod bounds;
pub mod click_through;
pub mod env_override;
pub mod regions;
pub mod tray;
pub mod watchdog;
pub mod window_style;

pub use bounds::{overlay_bounds, overlay_bounds_fit, MonitorArea, ScreenRect};
pub use click_through::ClickThrough;
pub use env_override::parse_watchdog_override;
pub use regions::RegionMap;
pub use tray::{tray_menu, TrayItem};
pub use watchdog::{ready_timeout, Watchdog, WatchdogAction};
pub use window_style::toolwindow_style_update;
