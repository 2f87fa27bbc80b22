use systemsettings::views::{icon_file_name, palette, span_markup, visible_rows, wifi_blue, Rgb, SF_PRO};

#[test]
fn palettes_follow_appearance() {
    let dark = palette(true);
    assert_eq!((dark.fg, dark.secondary, dark.card), ("#F5F5F7", "#A1A1A6", "#2C2C2E"));
    let light = palette(false);
    assert_eq!((light.fg, light.secondary, light.card), ("#1E1E1E", "#6E6E73", "#F5F5F7"));
}

#[test]
fn icon_files_name_tag_and_color() {
    assert_eq!(icon_file_name("wifi", wifi_blue()), "settings_wifi_007aff.png");
    assert_eq!(
        icon_file_name("general-header", Rgb { r: 142, g: 142, b: 147 }),
        "settings_general-header_8e8e93.png"
    );
    assert_eq!(icon_file_name("", Rgb { r: 0, g: 0, b: 0 }), "settings__000000.png");
}

#[test]
fn search_matches_ignoring_case() {
    let zones = vec!["Europe/Berlin".to_string(), "UTC".to_string(), "America/New_York".to_string()];
    assert_eq!(visible_rows(&zones, ""), vec![true, true, true]);
    assert_eq!(visible_rows(&zones, "ber"), vec![true, false, false]);
    assert_eq!(visible_rows(&zones, "U"), vec![true, true, false]);
    assert_eq!(visible_rows(&zones, "new_y"), vec![false, false, true]);
    assert_eq!(visible_rows(&zones, "Mars"), vec![false, false, false]);
    assert!(visible_rows(&Vec::new(), "x").is_empty());
}

#[test]
fn labels_are_sf_pro_spans() {
    assert_eq!(SF_PRO, "SF Pro Display");
    assert_eq!(
        span_markup("Wi-Fi", 15, "bold", "#F5F5F7"),
        "<span font_desc=\"SF Pro Display bold 15\" foreground=\"#F5F5F7\">Wi-Fi</span>"
    );
    assert_eq!(
        span_markup("a &amp; b", 12, "normal", "#FF453A"),
        "<span font_desc=\"SF Pro Display normal 12\" foreground=\"#FF453A\">a &amp; b</span>"
    );
}
