//! Navigation of the settings window: the selected page, the
//! back/forward history and the toolbar title of each page.

use vstd::prelude::*;
use super::{
    Rgb, accent_pink, alert_red, badge_gray, battery_green, focus_indigo, ink_black, tontoo_orange,
    wallpaper_teal, wifi_blue,
};

verus! {

/// Abstract navigation state: the shown page, the visited pages and the
/// position of the shown page in that history.
pub struct NavView {
    pub selected: usize,
    pub history: Seq<usize>,
    pub pos: nat,
}

impl NavView {
    /// The position points into the history at the shown page; an empty
    /// history sits at position 0.
    pub open spec fn wf(self) -> bool {
        if self.history.len() == 0 {
            self.pos == 0
        } else {
            &&& self.pos < self.history.len()
            &&& self.selected == self.history[self.pos as int]
        }
    }

    pub open spec fn can_back(self) -> bool {
        self.pos > 0
    }

    pub open spec fn can_forward(self) -> bool {
        let len = self.history.len();
        self.pos < len && self.pos + 1 < len
    }

    /// Visiting `index`: everything after the current position is
    /// dropped, `index` is appended and becomes the shown page.
    pub open spec fn after_go(self, index: usize) -> NavView {
        let keep = if self.pos + 1 <= self.history.len() {
            self.pos + 1
        } else {
            self.history.len()
        };
        let kept = self.history.take(keep as int);
        NavView { selected: index, history: kept.push(index), pos: kept.len() }
    }

    /// One step back in the history, when there is one.
    pub open spec fn after_back(self) -> NavView {
        if self.can_back() {
            NavView {
                selected: self.history[self.pos - 1],
                history: self.history,
                pos: (self.pos - 1) as nat,
            }
        } else {
            self
        }
    }

    /// One step forward in the history, when there is one.
    pub open spec fn after_forward(self) -> NavView {
        if self.can_forward() {
            NavView { selected: self.history[(self.pos + 1) as int], history: self.history, pos: self.pos + 1 }
        } else {
            self
        }
    }
}

/// Back/forward navigation state of the settings window.
/// Page 28 is the hidden About page (reached through history only).
#[derive(Debug)]
pub struct NavState {
    selected: usize,
    history: Vec<usize>,
    pos: usize,
}

impl View for NavState {
    type V = NavView;

    closed spec fn view(&self) -> NavView {
        NavView { selected: self.selected, history: self.history@, pos: self.pos as nat }
    }
}

impl Default for NavState {
    /// Page 0 shown, empty history.
    fn default() -> (nav: Self)
        ensures
            nav@.selected == 0,
            nav@.history.len() == 0,
            nav@.pos == 0,
            nav@.wf(),
            nav.wf(),
    {
        NavState { selected: 0, history: Vec::new(), pos: 0 }
    }
}

/// The navigation state the settings window starts with: the Wi-Fi page
/// (0) visited, so the history is `[0]`.
pub fn initial_nav() -> (nav: NavState)
    ensures
        nav.wf(),
        nav@.selected == 0,
        nav@.history == seq![0usize],
        nav@.pos == 0,
{
    let mut nav = NavState::default();
    nav.go(0);
    assert(nav@.history =~= seq![0usize]);
    nav
}

impl NavState {
    pub open spec fn wf(&self) -> bool {
        self@.wf()
    }

    /// The shown page.
    pub fn selected(&self) -> (index: usize)
        ensures
            index == self@.selected,
    {
        self.selected
    }

    /// Visit a page: the forward history is dropped and `index` becomes
    /// the newest entry.
    pub fn go(&mut self, index: usize)
        requires
            old(self).wf(),
        ensures
            final(self).wf(),
            final(self)@ == old(self)@.after_go(index),
    {
        let len = self.history.len();
        if self.pos < len {
            self.history.truncate(self.pos + 1);
        }
        self.history.push(index);
        self.pos = self.history.len() - 1;
        self.selected = index;
        assert(self.history@ =~= old(self)@.after_go(index).history);
    }

    /// Step back; false (and no change) at the start of the history.
    pub fn back(&mut self) -> (moved: bool)
        requires
            old(self).wf(),
        ensures
            final(self).wf(),
            moved == old(self)@.can_back(),
            final(self)@ == old(self)@.after_back(),
    {
        if self.pos > 0 {
            self.pos -= 1;
            self.selected = self.history[self.pos];
            true
        } else {
            false
        }
    }

    /// Step forward; false (and no change) at the end of the history.
    pub fn forward(&mut self) -> (moved: bool)
        requires
            old(self).wf(),
        ensures
            final(self).wf(),
            moved == old(self)@.can_forward(),
            final(self)@ == old(self)@.after_forward(),
    {
        let len = self.history.len();
        if self.pos < len && self.pos + 1 < len {
            self.pos += 1;
            self.selected = self.history[self.pos];
            true
        } else {
            false
        }
    }

    pub fn can_back(&self) -> (b: bool)
        ensures
            b == self@.can_back(),
    {
        self.pos > 0
    }

    pub fn can_forward(&self) -> (b: bool)
        ensures
            b == self@.can_forward(),
    {
        let len = self.history.len();
        self.pos < len && self.pos + 1 < len
    }
}

/// Every navigation step keeps the state well formed.
pub proof fn law_steps_keep_wf(v: NavView, index: usize)
    requires
        v.wf(),
    ensures
        v.after_go(index).wf(),
        v.after_back().wf(),
        v.after_forward().wf(),
{
}

/// Going back and then forward returns to exactly the same state.
pub proof fn law_back_then_forward(v: NavView)
    requires
        v.wf(),
        v.can_back(),
    ensures
        v.after_back().can_forward(),
        v.after_back().after_forward() == v,
{
}

/// Going forward and then back returns to exactly the same state.
pub proof fn law_forward_then_back(v: NavView)
    requires
        v.wf(),
        v.can_forward(),
    ensures
        v.after_forward().can_back(),
        v.after_forward().after_back() == v,
{
}

/// Visiting a page shows it, leaves nothing to go forward to, and keeps
/// the pages up to the current one as the way back.
pub proof fn law_go_truncates_forward(v: NavView, index: usize)
    requires
        v.wf(),
    ensures
        v.after_go(index).selected == index,
        !v.after_go(index).can_forward(),
        v.history.len() > 0 ==> v.after_go(index).history == v.history.take((v.pos + 1) as int).push(
            index,
        ),
{
}

/// After visiting a page from a non-empty history, going back shows the
/// page that was shown before the visit.
pub proof fn law_go_then_back_returns(v: NavView, index: usize)
    requires
        v.wf(),
        v.history.len() > 0,
    ensures
        v.after_go(index).can_back(),
        v.after_go(index).after_back().selected == v.selected,
{
    let g = v.after_go(index);
    assert(g.history[g.pos - 1] == v.history[v.pos as int]);
}

/// Lang key of each page title; unknown indices show the first page's.
pub open spec fn title_key_of(index: int) -> &'static str {
    if index == 0 { "wifi.title" }
    else if index == 1 { "bluetooth.title" }
    else if index == 2 { "network.title" }
    else if index == 3 { "battery.title" }
    else if index == 4 { "general.title" }
    else if index == 5 { "accessibility.title" }
    else if index == 6 { "appearance.title" }
    else if index == 7 { "desktop_dock.title" }
    else if index == 8 { "displays.title" }
    else if index == 9 { "menu_bar.title" }
    else if index == 10 { "tinti_ai.title" }
    else if index == 11 { "spotlight.title" }
    else if index == 12 { "wallpaper.title" }
    else if index == 13 { "notifications.title" }
    else if index == 14 { "sound.title" }
    else if index == 15 { "focus.title" }
    else if index == 16 { "screen_time.title" }
    else if index == 17 { "lock_screen.title" }
    else if index == 18 { "privacy.title" }
    else if index == 19 { "touch_id.title" }
    else if index == 20 { "users.title" }
    else if index == 21 { "internet_accounts.title" }
    else if index == 22 { "octo_cloud.title" }
    else if index == 23 { "keyboard.title" }
    else if index == 24 { "mouse.title" }
    else if index == 25 { "printers.title" }
    else if index == 26 { "app_settings.title" }
    else if index == 27 { "developer.title" }
    else if index == 28 { "about.title" }
    else { "wifi.title" }
}

/// Lang key of the toolbar title for a page index (sidebar order, 28 is
/// the hidden About page); unknown indices fall back to the Wi-Fi title.
pub fn page_title_key(index: usize) -> (key: &'static str)
    ensures
        key == title_key_of(index as int),
{
    match index {
        0 => "wifi.title",
        1 => "bluetooth.title",
        2 => "network.title",
        3 => "battery.title",
        4 => "general.title",
        5 => "accessibility.title",
        6 => "appearance.title",
        7 => "desktop_dock.title",
        8 => "displays.title",
        9 => "menu_bar.title",
        10 => "tinti_ai.title",
        11 => "spotlight.title",
        12 => "wallpaper.title",
        13 => "notifications.title",
        14 => "sound.title",
        15 => "focus.title",
        16 => "screen_time.title",
        17 => "lock_screen.title",
        18 => "privacy.title",
        19 => "touch_id.title",
        20 => "users.title",
        21 => "internet_accounts.title",
        22 => "octo_cloud.title",
        23 => "keyboard.title",
        24 => "mouse.title",
        25 => "printers.title",
        26 => "app_settings.title",
        27 => "developer.title",
        28 => "about.title",
        _ => "wifi.title",
    }
}

/// Index of the page the detail area shows for a selection: the page
/// itself for 0..=28, the Developer page (27) for anything else.
pub fn page_slot(index: usize) -> (slot: usize)
    ensures
        slot == (if index <= 28 { index } else { 27 }),
{
    if index <= 28 {
        index
    } else {
        27
    }
}

/// One sidebar row: its lang key, its SF Symbol and tile color (none for
/// the rows that show the page's bundled artwork as-is), and whether an
/// empty section gap stands above it.
pub struct SidebarItem {
    pub key: &'static str,
    pub symbol: Option<&'static str>,
    pub color: Option<Rgb>,
    pub gap_before: bool,
}

/// A row with an SF Symbol on a tile of `color`.
pub open spec fn symbol_item_is(item: SidebarItem, key: &str, symbol: &str, color: Rgb, gap: bool) -> bool {
    &&& item.key@ == key@
    &&& item.symbol matches Some(s) && s@ == symbol@
    &&& item.color == Some(color)
    &&& item.gap_before == gap
}

/// A row showing the page's bundled artwork.
pub open spec fn bundled_item_is(item: SidebarItem, key: &str, gap: bool) -> bool {
    &&& item.key@ == key@
    &&& item.symbol is None
    &&& item.color is None
    &&& item.gap_before == gap
}

/// The sidebar key `sidebar.<page>` belongs to the page whose title key
/// is `<page>.title`.
pub open spec fn key_opens_page(key: Seq<char>, index: int) -> bool {
    &&& key.len() >= 8
    &&& key.take(8) == "sidebar."@
    &&& title_key_of(index)@ == key.skip(8) + ".title"@
}

proof fn lemma_key_parts(key: Seq<char>, stem: Seq<char>, index: int)
    requires
        "sidebar."@.len() == 8,
        key == "sidebar."@ + stem,
        title_key_of(index)@ == stem + ".title"@,
    ensures
        key_opens_page(key, index),
{
    assert(key.take(8) =~= "sidebar."@);
    assert(key.skip(8) =~= stem);
}

proof fn lemma_sidebar_keys()
    ensures
        key_opens_page("sidebar.wifi"@, 0),
        key_opens_page("sidebar.bluetooth"@, 1),
        key_opens_page("sidebar.network"@, 2),
        key_opens_page("sidebar.battery"@, 3),
        key_opens_page("sidebar.general"@, 4),
        key_opens_page("sidebar.accessibility"@, 5),
        key_opens_page("sidebar.appearance"@, 6),
        key_opens_page("sidebar.desktop_dock"@, 7),
        key_opens_page("sidebar.displays"@, 8),
        key_opens_page("sidebar.menu_bar"@, 9),
        key_opens_page("sidebar.tinti_ai"@, 10),
        key_opens_page("sidebar.spotlight"@, 11),
        key_opens_page("sidebar.wallpaper"@, 12),
        key_opens_page("sidebar.notifications"@, 13),
        key_opens_page("sidebar.sound"@, 14),
        key_opens_page("sidebar.focus"@, 15),
        key_opens_page("sidebar.screen_time"@, 16),
        key_opens_page("sidebar.lock_screen"@, 17),
        key_opens_page("sidebar.privacy"@, 18),
        key_opens_page("sidebar.touch_id"@, 19),
        key_opens_page("sidebar.users"@, 20),
        key_opens_page("sidebar.internet_accounts"@, 21),
        key_opens_page("sidebar.octo_cloud"@, 22),
        key_opens_page("sidebar.keyboard"@, 23),
        key_opens_page("sidebar.mouse"@, 24),
        key_opens_page("sidebar.printers"@, 25),
        key_opens_page("sidebar.app_settings"@, 26),
        key_opens_page("sidebar.developer"@, 27),
{
    reveal_strlit("sidebar.");
    reveal_strlit(".title");
    reveal_strlit("sidebar.wifi");
    reveal_strlit("wifi.title");
    reveal_strlit("wifi");
    assert("sidebar.wifi"@ =~= "sidebar."@ + "wifi"@);
    assert("wifi.title"@ =~= "wifi"@ + ".title"@);
    lemma_key_parts("sidebar.wifi"@, "wifi"@, 0);
    reveal_strlit("sidebar.bluetooth");
    reveal_strlit("bluetooth.title");
    reveal_strlit("bluetooth");
    assert("sidebar.bluetooth"@ =~= "sidebar."@ + "bluetooth"@);
    assert("bluetooth.title"@ =~= "bluetooth"@ + ".title"@);
    lemma_key_parts("sidebar.bluetooth"@, "bluetooth"@, 1);
    reveal_strlit("sidebar.network");
    reveal_strlit("network.title");
    reveal_strlit("network");
    assert("sidebar.network"@ =~= "sidebar."@ + "network"@);
    assert("network.title"@ =~= "network"@ + ".title"@);
    lemma_key_parts("sidebar.network"@, "network"@, 2);
    reveal_strlit("sidebar.battery");
    reveal_strlit("battery.title");
    reveal_strlit("battery");
    assert("sidebar.battery"@ =~= "sidebar."@ + "battery"@);
    assert("battery.title"@ =~= "battery"@ + ".title"@);
    lemma_key_parts("sidebar.battery"@, "battery"@, 3);
    reveal_strlit("sidebar.general");
    reveal_strlit("general.title");
    reveal_strlit("general");
    assert("sidebar.general"@ =~= "sidebar."@ + "general"@);
    assert("general.title"@ =~= "general"@ + ".title"@);
    lemma_key_parts("sidebar.general"@, "general"@, 4);
    reveal_strlit("sidebar.accessibility");
    reveal_strlit("accessibility.title");
    reveal_strlit("accessibility");
    assert("sidebar.accessibility"@ =~= "sidebar."@ + "accessibility"@);
    assert("accessibility.title"@ =~= "accessibility"@ + ".title"@);
    lemma_key_parts("sidebar.accessibility"@, "accessibility"@, 5);
    reveal_strlit("sidebar.appearance");
    reveal_strlit("appearance.title");
    reveal_strlit("appearance");
    assert("sidebar.appearance"@ =~= "sidebar."@ + "appearance"@);
    assert("appearance.title"@ =~= "appearance"@ + ".title"@);
    lemma_key_parts("sidebar.appearance"@, "appearance"@, 6);
    reveal_strlit("sidebar.desktop_dock");
    reveal_strlit("desktop_dock.title");
    reveal_strlit("desktop_dock");
    assert("sidebar.desktop_dock"@ =~= "sidebar."@ + "desktop_dock"@);
    assert("desktop_dock.title"@ =~= "desktop_dock"@ + ".title"@);
    lemma_key_parts("sidebar.desktop_dock"@, "desktop_dock"@, 7);
    reveal_strlit("sidebar.displays");
    reveal_strlit("displays.title");
    reveal_strlit("displays");
    assert("sidebar.displays"@ =~= "sidebar."@ + "displays"@);
    assert("displays.title"@ =~= "displays"@ + ".title"@);
    lemma_key_parts("sidebar.displays"@, "displays"@, 8);
    reveal_strlit("sidebar.menu_bar");
    reveal_strlit("menu_bar.title");
    reveal_strlit("menu_bar");
    assert("sidebar.menu_bar"@ =~= "sidebar."@ + "menu_bar"@);
    assert("menu_bar.title"@ =~= "menu_bar"@ + ".title"@);
    lemma_key_parts("sidebar.menu_bar"@, "menu_bar"@, 9);
    reveal_strlit("sidebar.tinti_ai");
    reveal_strlit("tinti_ai.title");
    reveal_strlit("tinti_ai");
    assert("sidebar.tinti_ai"@ =~= "sidebar."@ + "tinti_ai"@);
    assert("tinti_ai.title"@ =~= "tinti_ai"@ + ".title"@);
    lemma_key_parts("sidebar.tinti_ai"@, "tinti_ai"@, 10);
    reveal_strlit("sidebar.spotlight");
    reveal_strlit("spotlight.title");
    reveal_strlit("spotlight");
    assert("sidebar.spotlight"@ =~= "sidebar."@ + "spotlight"@);
    assert("spotlight.title"@ =~= "spotlight"@ + ".title"@);
    lemma_key_parts("sidebar.spotlight"@, "spotlight"@, 11);
    reveal_strlit("sidebar.wallpaper");
    reveal_strlit("wallpaper.title");
    reveal_strlit("wallpaper");
    assert("sidebar.wallpaper"@ =~= "sidebar."@ + "wallpaper"@);
    assert("wallpaper.title"@ =~= "wallpaper"@ + ".title"@);
    lemma_key_parts("sidebar.wallpaper"@, "wallpaper"@, 12);
    reveal_strlit("sidebar.notifications");
    reveal_strlit("notifications.title");
    reveal_strlit("notifications");
    assert("sidebar.notifications"@ =~= "sidebar."@ + "notifications"@);
    assert("notifications.title"@ =~= "notifications"@ + ".title"@);
    lemma_key_parts("sidebar.notifications"@, "notifications"@, 13);
    reveal_strlit("sidebar.sound");
    reveal_strlit("sound.title");
    reveal_strlit("sound");
    assert("sidebar.sound"@ =~= "sidebar."@ + "sound"@);
    assert("sound.title"@ =~= "sound"@ + ".title"@);
    lemma_key_parts("sidebar.sound"@, "sound"@, 14);
    reveal_strlit("sidebar.focus");
    reveal_strlit("focus.title");
    reveal_strlit("focus");
    assert("sidebar.focus"@ =~= "sidebar."@ + "focus"@);
    assert("focus.title"@ =~= "focus"@ + ".title"@);
    lemma_key_parts("sidebar.focus"@, "focus"@, 15);
    reveal_strlit("sidebar.screen_time");
    reveal_strlit("screen_time.title");
    reveal_strlit("screen_time");
    assert("sidebar.screen_time"@ =~= "sidebar."@ + "screen_time"@);
    assert("screen_time.title"@ =~= "screen_time"@ + ".title"@);
    lemma_key_parts("sidebar.screen_time"@, "screen_time"@, 16);
    reveal_strlit("sidebar.lock_screen");
    reveal_strlit("lock_screen.title");
    reveal_strlit("lock_screen");
    assert("sidebar.lock_screen"@ =~= "sidebar."@ + "lock_screen"@);
    assert("lock_screen.title"@ =~= "lock_screen"@ + ".title"@);
    lemma_key_parts("sidebar.lock_screen"@, "lock_screen"@, 17);
    reveal_strlit("sidebar.privacy");
    reveal_strlit("privacy.title");
    reveal_strlit("privacy");
    assert("sidebar.privacy"@ =~= "sidebar."@ + "privacy"@);
    assert("privacy.title"@ =~= "privacy"@ + ".title"@);
    lemma_key_parts("sidebar.privacy"@, "privacy"@, 18);
    reveal_strlit("sidebar.touch_id");
    reveal_strlit("touch_id.title");
    reveal_strlit("touch_id");
    assert("sidebar.touch_id"@ =~= "sidebar."@ + "touch_id"@);
    assert("touch_id.title"@ =~= "touch_id"@ + ".title"@);
    lemma_key_parts("sidebar.touch_id"@, "touch_id"@, 19);
    reveal_strlit("sidebar.users");
    reveal_strlit("users.title");
    reveal_strlit("users");
    assert("sidebar.users"@ =~= "sidebar."@ + "users"@);
    assert("users.title"@ =~= "users"@ + ".title"@);
    lemma_key_parts("sidebar.users"@, "users"@, 20);
    reveal_strlit("sidebar.internet_accounts");
    reveal_strlit("internet_accounts.title");
    reveal_strlit("internet_accounts");
    assert("sidebar.internet_accounts"@ =~= "sidebar."@ + "internet_accounts"@);
    assert("internet_accounts.title"@ =~= "internet_accounts"@ + ".title"@);
    lemma_key_parts("sidebar.internet_accounts"@, "internet_accounts"@, 21);
    reveal_strlit("sidebar.octo_cloud");
    reveal_strlit("octo_cloud.title");
    reveal_strlit("octo_cloud");
    assert("sidebar.octo_cloud"@ =~= "sidebar."@ + "octo_cloud"@);
    assert("octo_cloud.title"@ =~= "octo_cloud"@ + ".title"@);
    lemma_key_parts("sidebar.octo_cloud"@, "octo_cloud"@, 22);
    reveal_strlit("sidebar.keyboard");
    reveal_strlit("keyboard.title");
    reveal_strlit("keyboard");
    assert("sidebar.keyboard"@ =~= "sidebar."@ + "keyboard"@);
    assert("keyboard.title"@ =~= "keyboard"@ + ".title"@);
    lemma_key_parts("sidebar.keyboard"@, "keyboard"@, 23);
    reveal_strlit("sidebar.mouse");
    reveal_strlit("mouse.title");
    reveal_strlit("mouse");
    assert("sidebar.mouse"@ =~= "sidebar."@ + "mouse"@);
    assert("mouse.title"@ =~= "mouse"@ + ".title"@);
    lemma_key_parts("sidebar.mouse"@, "mouse"@, 24);
    reveal_strlit("sidebar.printers");
    reveal_strlit("printers.title");
    reveal_strlit("printers");
    assert("sidebar.printers"@ =~= "sidebar."@ + "printers"@);
    assert("printers.title"@ =~= "printers"@ + ".title"@);
    lemma_key_parts("sidebar.printers"@, "printers"@, 25);
    reveal_strlit("sidebar.app_settings");
    reveal_strlit("app_settings.title");
    reveal_strlit("app_settings");
    assert("sidebar.app_settings"@ =~= "sidebar."@ + "app_settings"@);
    assert("app_settings.title"@ =~= "app_settings"@ + ".title"@);
    lemma_key_parts("sidebar.app_settings"@, "app_settings"@, 26);
    reveal_strlit("sidebar.developer");
    reveal_strlit("developer.title");
    reveal_strlit("developer");
    assert("sidebar.developer"@ =~= "sidebar."@ + "developer"@);
    assert("developer.title"@ =~= "developer"@ + ".title"@);
    lemma_key_parts("sidebar.developer"@, "developer"@, 27);
}

/// The sidebar rows in order, with the empty section gaps; row `r` opens
/// page `page_of_row(r)` (28 rows, the About page has none).
pub fn sidebar_items() -> (items: Vec<SidebarItem>)
    ensures
        items@.len() == 28,
        symbol_item_is(items@[0], "sidebar.wifi", "wifi", wifi_blue(), false),
        symbol_item_is(items@[1], "sidebar.bluetooth", "antenna.radiowaves.left.and.right", wifi_blue(), false),
        symbol_item_is(items@[2], "sidebar.network", "network", wifi_blue(), false),
        symbol_item_is(items@[3], "sidebar.battery", "battery.100", battery_green(), false),
        symbol_item_is(items@[4], "sidebar.general", "gear", badge_gray(), true),
        symbol_item_is(items@[5], "sidebar.accessibility", "figure.wave.circle", wifi_blue(), false),
        bundled_item_is(items@[6], "sidebar.appearance", false),
        symbol_item_is(items@[7], "sidebar.desktop_dock", "menubar.dock.rectangle", ink_black(), false),
        symbol_item_is(items@[8], "sidebar.displays", "sun.max.fill", wifi_blue(), false),
        symbol_item_is(items@[9], "sidebar.menu_bar", "switch.2", badge_gray(), false),
        bundled_item_is(items@[10], "sidebar.tinti_ai", false),
        symbol_item_is(items@[11], "sidebar.spotlight", "magnifyingglass", badge_gray(), false),
        symbol_item_is(items@[12], "sidebar.wallpaper", "atom", wallpaper_teal(), false),
        symbol_item_is(items@[13], "sidebar.lock_screen", "lock.fill", ink_black(), true),
        symbol_item_is(items@[14], "sidebar.privacy", "hand.raised.fill", wifi_blue(), false),
        symbol_item_is(items@[15], "sidebar.touch_id", "touchid", accent_pink(), false),
        symbol_item_is(items@[16], "sidebar.users", "person.2.fill", badge_gray(), false),
        symbol_item_is(items@[17], "sidebar.internet_accounts", "mail.stack.fill", wifi_blue(), true),
        symbol_item_is(items@[18], "sidebar.octo_cloud", "icloud.fill", tontoo_orange(), false),
        symbol_item_is(items@[19], "sidebar.keyboard", "keyboard.fill", badge_gray(), true),
        symbol_item_is(items@[20], "sidebar.mouse", "cursorarrow", badge_gray(), false),
        symbol_item_is(items@[21], "sidebar.printers", "printer.fill", badge_gray(), false),
        bundled_item_is(items@[22], "sidebar.app_settings", true),
        symbol_item_is(items@[23], "sidebar.developer", "hammer.fill", badge_gray(), true),
        symbol_item_is(items@[24], "sidebar.notifications", "bell.badge.fill", alert_red(), true),
        symbol_item_is(items@[25], "sidebar.sound", "speaker.wave.3.fill", accent_pink(), false),
        symbol_item_is(items@[26], "sidebar.focus", "moon.fill", focus_indigo(), false),
        symbol_item_is(items@[27], "sidebar.screen_time", "hourglass", focus_indigo(), false),
        forall|r: int| 0 <= r < 28 ==> key_opens_page(#[trigger] items@[r].key@, page_of_row(r)),
{
    let mut items: Vec<SidebarItem> = Vec::new();
    items.push(SidebarItem { key: "sidebar.wifi", symbol: Some("wifi"), color: Some(wifi_blue()), gap_before: false });
    items.push(SidebarItem { key: "sidebar.bluetooth", symbol: Some("antenna.radiowaves.left.and.right"), color: Some(wifi_blue()), gap_before: false });
    items.push(SidebarItem { key: "sidebar.network", symbol: Some("network"), color: Some(wifi_blue()), gap_before: false });
    items.push(SidebarItem { key: "sidebar.battery", symbol: Some("battery.100"), color: Some(battery_green()), gap_before: false });
    items.push(SidebarItem { key: "sidebar.general", symbol: Some("gear"), color: Some(badge_gray()), gap_before: true });
    items.push(SidebarItem { key: "sidebar.accessibility", symbol: Some("figure.wave.circle"), color: Some(wifi_blue()), gap_before: false });
    items.push(SidebarItem { key: "sidebar.appearance", symbol: None, color: None, gap_before: false });
    items.push(SidebarItem { key: "sidebar.desktop_dock", symbol: Some("menubar.dock.rectangle"), color: Some(ink_black()), gap_before: false });
    items.push(SidebarItem { key: "sidebar.displays", symbol: Some("sun.max.fill"), color: Some(wifi_blue()), gap_before: false });
    items.push(SidebarItem { key: "sidebar.menu_bar", symbol: Some("switch.2"), color: Some(badge_gray()), gap_before: false });
    items.push(SidebarItem { key: "sidebar.tinti_ai", symbol: None, color: None, gap_before: false });
    items.push(SidebarItem { key: "sidebar.spotlight", symbol: Some("magnifyingglass"), color: Some(badge_gray()), gap_before: false });
    items.push(SidebarItem { key: "sidebar.wallpaper", symbol: Some("atom"), color: Some(wallpaper_teal()), gap_before: false });
    items.push(SidebarItem { key: "sidebar.lock_screen", symbol: Some("lock.fill"), color: Some(ink_black()), gap_before: true });
    items.push(SidebarItem { key: "sidebar.privacy", symbol: Some("hand.raised.fill"), color: Some(wifi_blue()), gap_before: false });
    items.push(SidebarItem { key: "sidebar.touch_id", symbol: Some("touchid"), color: Some(accent_pink()), gap_before: false });
    items.push(SidebarItem { key: "sidebar.users", symbol: Some("person.2.fill"), color: Some(badge_gray()), gap_before: false });
    items.push(SidebarItem { key: "sidebar.internet_accounts", symbol: Some("mail.stack.fill"), color: Some(wifi_blue()), gap_before: true });
    items.push(SidebarItem { key: "sidebar.octo_cloud", symbol: Some("icloud.fill"), color: Some(tontoo_orange()), gap_before: false });
    items.push(SidebarItem { key: "sidebar.keyboard", symbol: Some("keyboard.fill"), color: Some(badge_gray()), gap_before: true });
    items.push(SidebarItem { key: "sidebar.mouse", symbol: Some("cursorarrow"), color: Some(badge_gray()), gap_before: false });
    items.push(SidebarItem { key: "sidebar.printers", symbol: Some("printer.fill"), color: Some(badge_gray()), gap_before: false });
    items.push(SidebarItem { key: "sidebar.app_settings", symbol: None, color: None, gap_before: true });
    items.push(SidebarItem { key: "sidebar.developer", symbol: Some("hammer.fill"), color: Some(badge_gray()), gap_before: true });
    items.push(SidebarItem { key: "sidebar.notifications", symbol: Some("bell.badge.fill"), color: Some(alert_red()), gap_before: true });
    items.push(SidebarItem { key: "sidebar.sound", symbol: Some("speaker.wave.3.fill"), color: Some(accent_pink()), gap_before: false });
    items.push(SidebarItem { key: "sidebar.focus", symbol: Some("moon.fill"), color: Some(focus_indigo()), gap_before: false });
    items.push(SidebarItem { key: "sidebar.screen_time", symbol: Some("hourglass"), color: Some(focus_indigo()), gap_before: false });
    proof {
        lemma_sidebar_keys();
    }
    items
}

/// The page sidebar row `row` opens: rows 0 to 12 the pages of the same
/// index, rows 13 to 23 (Lock Screen to Developer) pages 17 to 27, and
/// the last four rows (Notifications to Screen Time) pages 13 to 16.
pub open spec fn page_of_row(row: int) -> int {
    if row < 13 {
        row
    } else if row < 24 {
        row + 4
    } else {
        row - 11
    }
}

/// The page a sidebar row opens; none past the last row.
pub fn sidebar_page(row: usize) -> (page: Option<usize>)
    ensures
        row < 28 ==> page == Some(page_of_row(row as int) as usize),
        row >= 28 ==> page is None,
{
    if row < 13 {
        Some(row)
    } else if row < 24 {
        Some(row + 4)
    } else if row < 28 {
        Some(row - 11)
    } else {
        None
    }
}

/// Selecting sidebar row `row` visits the page it opens.
pub fn select_row(nav: &mut NavState, row: usize)
    requires
        old(nav).wf(),
    ensures
        final(nav).wf(),
        row < 28 ==> final(nav)@ == old(nav)@.after_go(page_of_row(row as int) as usize),
        row >= 28 ==> final(nav)@ == old(nav)@,
{
    match sidebar_page(row) {
        Some(page) => nav.go(page),
        None => {},
    }
}

/// What the toolbar and the detail area show for a navigation state: the
/// page, its title key, and whether Back and Forward are enabled.
pub struct Toolbar {
    pub page: usize,
    pub title_key: &'static str,
    pub back_enabled: bool,
    pub forward_enabled: bool,
}

/// The poller's step after a selection or history move.
pub fn toolbar(nav: &NavState) -> (t: Toolbar)
    ensures
        t.page == (if nav@.selected <= 28 { nav@.selected } else { 27 }),
        t.title_key == title_key_of(nav@.selected as int),
        t.back_enabled == nav@.can_back(),
        t.forward_enabled == nav@.can_forward(),
{
    let selected = nav.selected();
    Toolbar {
        page: page_slot(selected),
        title_key: page_title_key(selected),
        back_enabled: nav.can_back(),
        forward_enabled: nav.can_forward(),
    }
}

} // verus!
