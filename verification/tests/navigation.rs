use systemsettings::views::root::{page_slot, page_title_key, NavState};
use systemsettings::views::root::initial_nav;
use systemsettings::views::root::{select_row, sidebar_items, sidebar_page, toolbar};
use systemsettings::views::{accent_pink, alert_red, badge_gray, wallpaper_teal, wifi_blue};

#[test]
fn nav_history_go_back_forward() {
    let mut nav = NavState::default();
    assert!(!nav.can_back());
    assert!(!nav.can_forward());
    nav.go(0);
    nav.go(2);
    nav.go(5);
    assert!(nav.can_back());
    assert!(!nav.can_forward());
    assert!(nav.back());
    assert_eq!(nav.selected(), 2);
    assert!(nav.forward());
    assert_eq!(nav.selected(), 5);
}

#[test]
fn nav_branch_truncates_forward() {
    let mut nav = NavState::default();
    nav.go(0);
    nav.go(1);
    nav.go(2);
    nav.back();
    nav.go(5);
    assert!(!nav.can_forward());
    assert_eq!(nav.selected(), 5);
}

#[test]
fn back_then_forward_restores_selection() {
    let mut nav = NavState::default();
    nav.go(3);
    nav.go(7);
    let before = nav.selected();
    assert!(nav.back());
    assert_eq!(nav.selected(), 3);
    assert!(nav.forward());
    assert_eq!(nav.selected(), before);
}

#[test]
fn go_then_back_returns_to_previous_page() {
    let mut nav = NavState::default();
    nav.go(4);
    let previous = nav.selected();
    nav.go(9);
    assert!(nav.back());
    assert_eq!(nav.selected(), previous);
}

#[test]
fn fresh_history_cannot_move() {
    let mut nav = NavState::default();
    assert_eq!(nav.selected(), 0);
    assert!(!nav.back());
    assert!(!nav.forward());
    assert_eq!(nav.selected(), 0);
}

#[test]
fn revisiting_a_page_adds_an_entry() {
    let mut nav = NavState::default();
    nav.go(0);
    nav.go(2);
    nav.go(2);
    assert!(nav.back());
    assert_eq!(nav.selected(), 2);
    assert!(nav.back());
    assert_eq!(nav.selected(), 0);
    assert!(!nav.can_back());
    assert!(nav.can_forward());
}

#[test]
fn page_titles_follow_sidebar_order() {
    assert_eq!(page_title_key(0), "wifi.title");
    assert_eq!(page_title_key(8), "displays.title");
    assert_eq!(page_title_key(12), "wallpaper.title");
    assert_eq!(page_title_key(28), "about.title");
    assert_eq!(page_title_key(29), "wifi.title");
    assert_eq!(page_title_key(1000), "wifi.title");
}

#[test]
fn unknown_selection_shows_developer_page() {
    assert_eq!(page_slot(0), 0);
    assert_eq!(page_slot(28), 28);
    assert_eq!(page_slot(29), 27);
    assert_eq!(page_slot(usize::MAX), 27);
}

#[test]
fn window_starts_on_wifi_with_history() {
    let mut nav = initial_nav();
    assert_eq!(nav.selected(), 0);
    assert!(!nav.can_back());
    assert!(!nav.can_forward());
    nav.go(8);
    assert!(nav.back());
    assert_eq!(nav.selected(), 0);
}

#[test]
fn sidebar_rows_in_order() {
    let items = sidebar_items();
    let keys: Vec<&str> = items.iter().map(|item| item.key.strip_prefix("sidebar.").unwrap()).collect();
    assert_eq!(
        keys,
        vec![
            "wifi", "bluetooth", "network", "battery", "general", "accessibility", "appearance",
            "desktop_dock", "displays", "menu_bar", "tinti_ai", "spotlight", "wallpaper",
            "lock_screen", "privacy", "touch_id", "users", "internet_accounts", "octo_cloud",
            "keyboard", "mouse", "printers", "app_settings", "developer", "notifications", "sound",
            "focus", "screen_time",
        ]
    );
    assert_eq!(items[0].symbol, Some("wifi"));
    assert_eq!(items[0].color, Some(wifi_blue()));
    assert_eq!(items[4].color, Some(badge_gray()));
    assert!(items[6].symbol.is_none() && items[6].color.is_none());
    assert_eq!(items[12].color, Some(wallpaper_teal()));
    assert_eq!(items[13].symbol, Some("lock.fill"));
    assert_eq!(items[24].color, Some(alert_red()));
    assert_eq!(items[25].color, Some(accent_pink()));
    let gaps: Vec<usize> = (0..28).filter(|&i| items[i].gap_before).collect();
    assert_eq!(gaps, vec![4, 13, 17, 19, 22, 23, 24]);
    for (row, item) in items.iter().enumerate() {
        let stem = item.key.strip_prefix("sidebar.").unwrap();
        let page = sidebar_page(row).unwrap();
        assert_eq!(page_title_key(page), format!("{}.title", stem));
    }
    assert_eq!(sidebar_page(13), Some(17));
    assert_eq!(sidebar_page(24), Some(13));
    assert_eq!(sidebar_page(28), None);
}

#[test]
fn selecting_a_row_visits_its_page() {
    let mut nav = initial_nav();
    select_row(&mut nav, 24);
    assert_eq!(nav.selected(), 13);
    let bar = toolbar(&nav);
    assert_eq!(bar.page, 13);
    assert_eq!(bar.title_key, "notifications.title");
    assert!(bar.back_enabled && !bar.forward_enabled);
    select_row(&mut nav, 99);
    assert_eq!(nav.selected(), 13);
    assert!(nav.back());
    let bar = toolbar(&nav);
    assert_eq!((bar.page, bar.title_key), (0, "wifi.title"));
    assert!(!bar.back_enabled && bar.forward_enabled);
}
