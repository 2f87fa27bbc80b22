use systemsettings::views::general::{general_rows, row_tag};
use systemsettings::views::{badge_gray, ink_black, tontoo_orange, wifi_blue};
use systemsettings::views::general::card_of_row;
use systemsettings::views::general::{open_row, ABOUT_PAGE};
use systemsettings::views::root::initial_nav;

#[test]
fn rows_match_mockup() {
    let rows = general_rows();
    assert_eq!(rows.len(), 13);
    let keys: Vec<&str> = rows.iter().map(|row| row.key).collect();
    assert_eq!(keys[0], "general.about");
    assert_eq!(keys[3], "general.airdrop");
    assert_eq!(keys[12], "general.transfer_reset");
    for row in &rows {
        assert!(row.key.starts_with("general."));
        assert!(!row.symbol.is_empty());
    }
}

#[test]
fn row_tiles_use_page_colors() {
    let rows = general_rows();
    assert_eq!(rows[0].color, wifi_blue());
    assert_eq!(rows[5].color, ink_black());
    assert_eq!(rows[7].color, tontoo_orange());
    assert_eq!(rows[12].color, badge_gray());
    assert_eq!(rows[2].symbol, "internaldrive.fill");
}

#[test]
fn row_tags_replace_the_key_prefix() {
    assert_eq!(row_tag("general.about"), "general-row-about");
    assert_eq!(row_tag("general.general.x"), "general-row-general-row-x");
    assert_eq!(row_tag("about"), "about");
    assert_eq!(row_tag(""), "");
}

#[test]
fn rows_group_into_cards() {
    let cards: Vec<Option<usize>> = (0..14).map(card_of_row).collect();
    assert_eq!(
        cards,
        vec![Some(0), Some(0), Some(0), Some(1), Some(2), Some(2), Some(2), Some(2), Some(2), Some(2), Some(2), Some(3), Some(3), None]
    );
}

#[test]
fn about_row_opens_about_page() {
    let mut nav = initial_nav();
    nav.go(4);
    assert!(!open_row(&mut nav, 3));
    assert_eq!(nav.selected(), 4);
    assert!(open_row(&mut nav, 0));
    assert_eq!(nav.selected(), ABOUT_PAGE);
    assert!(nav.back());
    assert_eq!(nav.selected(), 4);
}
