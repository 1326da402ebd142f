use vstd::prelude::*;

verus! {

/// An item of the tray menu.
#[derive(Clone, Copy, Debug, PartialEq, Eq, Structural)]
pub enum TrayItem {
    /// Quit the app.
    Quit,
    /// Switch the watchdog's auto-exit (debug builds only).
    ToggleWatchdog,
}

/// The menu identifier of a tray item.
pub open spec fn item_id_spec(item: TrayItem) -> Seq<char> {
    match item {
        TrayItem::Quit => "quit"@,
        TrayItem::ToggleWatchdog => "toggle-watchdog"@,
    }
}

/// The text a tray item shows, given whether auto-exit is on.
pub open spec fn item_label_spec(item: TrayItem, watchdog_enabled: bool) -> Seq<char> {
    match item {
        TrayItem::Quit => "Quit"@,
        TrayItem::ToggleWatchdog => if watchdog_enabled {
            "Watchdog: On"@
        } else {
            "Watchdog: Off"@
        },
    }
}

/// The tray menu: `Quit`, and in a debug build the watchdog switch after it.
/// A release build has no switch, as its watchdog is always on.
pub open spec fn tray_menu_spec(debug_build: bool) -> Seq<TrayItem> {
    if debug_build {
        seq![TrayItem::Quit, TrayItem::ToggleWatchdog]
    } else {
        seq![TrayItem::Quit]
    }
}

/// Whether two strings hold the same characters.
fn same_text(a: &str, b: &str) -> (r: bool)
    ensures
        r == (a@ == b@),
{
    let n = a.unicode_len();
    if n != b.unicode_len() {
        return false;
    }
    let mut i: usize = 0;
    while i < n
        invariant
            n == a@.len(),
            n == b@.len(),
            i <= n,
            forall|k: int| 0 <= k < i ==> a@[k] == b@[k],
        decreases n - i,
    {
        if a.get_char(i) != b.get_char(i) {
            return false;
        }
        i += 1;
    }
    proof {
        assert(a@ =~= b@);
    }
    true
}

impl TrayItem {
    /// The menu identifier of this item.
    pub fn id(&self) -> (r: &'static str)
        ensures
            r@ == item_id_spec(*self),
    {
        match self {
            TrayItem::Quit => "quit",
            TrayItem::ToggleWatchdog => "toggle-watchdog",
        }
    }

    /// The text this item shows, given whether auto-exit is on.
    pub fn label(&self, watchdog_enabled: bool) -> (r: &'static str)
        ensures
            r@ == item_label_spec(*self, watchdog_enabled),
    {
        match self {
            TrayItem::Quit => "Quit",
            TrayItem::ToggleWatchdog => if watchdog_enabled {
                "Watchdog: On"
            } else {
                "Watchdog: Off"
            },
        }
    }

    /// The item a menu event with identifier `id` is for, if any.
    pub fn from_id(id: &str) -> (r: Option<TrayItem>)
        ensures
            r == (if id@ == item_id_spec(TrayItem::Quit) {
                Some(TrayItem::Quit)
            } else if id@ == item_id_spec(TrayItem::ToggleWatchdog) {
                Some(TrayItem::ToggleWatchdog)
            } else {
                None
            }),
    {
        if same_text(id, "quit") {
            Some(TrayItem::Quit)
        } else if same_text(id, "toggle-watchdog") {
            Some(TrayItem::ToggleWatchdog)
        } else {
            None
        }
    }
}

/// The items of the tray menu for a debug or a release build.
pub fn tray_menu(debug_build: bool) -> (r: Vec<TrayItem>)
    ensures
        r@ == tray_menu_spec(debug_build),
{
    let mut items = Vec::new();
    items.push(TrayItem::Quit);
    if debug_build {
        items.push(TrayItem::ToggleWatchdog);
    }
    proof {
        if debug_build {
            assert(items@ =~= seq![TrayItem::Quit, TrayItem::ToggleWatchdog]);
        } else {
            assert(items@ =~= seq![TrayItem::Quit]);
        }
    }
    items
}

/// `Quit` always leads the menu, and the watchdog switch is there exactly in a
/// debug build, as the release watchdog is always on.
pub proof fn lemma_switch_only_in_debug(debug_build: bool)
    ensures
        tray_menu_spec(debug_build).len() >= 1,
        tray_menu_spec(debug_build)[0] == TrayItem::Quit,
        tray_menu_spec(debug_build).contains(TrayItem::ToggleWatchdog) <==> debug_build,
        tray_menu_spec(debug_build).len() == (if debug_build {
            2nat
        } else {
            1nat
        }),
{
    if debug_build {
        assert(tray_menu_spec(debug_build)[1] == TrayItem::ToggleWatchdog);
    } else {
        assert(!tray_menu_spec(debug_build).contains(TrayItem::ToggleWatchdog)) by {
            if tray_menu_spec(debug_build).contains(TrayItem::ToggleWatchdog) {
                let i = choose|i: int|
                    0 <= i < tray_menu_spec(debug_build).len() && tray_menu_spec(debug_build)[i]
                        == TrayItem::ToggleWatchdog;
                assert(i == 0);
            }
        }
    }
}

/// Each menu item is found again from its own identifier.
pub proof fn lemma_item_id_round_trip(item: TrayItem)
    ensures
        (if item_id_spec(item) == item_id_spec(TrayItem::Quit) {
            Some(TrayItem::Quit)
        } else if item_id_spec(item) == item_id_spec(TrayItem::ToggleWatchdog) {
            Some(TrayItem::ToggleWatchdog)
        } else {
            None
        }) == Some(item),
{
    reveal_strlit("quit");
    reveal_strlit("toggle-watchdog");
    assert("quit"@.len() != "toggle-watchdog"@.len());
}

} // verus!
