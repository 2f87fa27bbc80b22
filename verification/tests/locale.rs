use systemsettings::daemon::RegionEntry;
use systemsettings::views::locale::{
    layout_entries, layout_label, region_code_for, region_display_name, variant_choice,
    variant_entries,
};
use systemsettings::daemon::LanguageEntry;
use systemsettings::views::locale::failure_text;
use systemsettings::views::locale::language_entries;

fn region(code: &str, name: &str) -> RegionEntry {
    RegionEntry { code: code.to_string(), name: name.to_string() }
}

#[test]
fn region_names_and_codes_round_trip() {
    let regions = vec![region("US", "United States"), region("DE", "Germany")];
    assert_eq!(region_display_name(&regions, "DE"), "Germany");
    assert_eq!(region_display_name(&regions, "FR"), "FR");
    assert_eq!(region_code_for(&regions, "Germany"), "DE");
    assert_eq!(region_code_for(&regions, "Atlantis"), "");
    let shown = region_display_name(&regions, "US");
    assert_eq!(region_code_for(&regions, &shown), "US");
}

#[test]
fn keyboard_button_text() {
    assert_eq!(layout_label("", &None, "Keyboard"), "Keyboard");
    assert_eq!(layout_label("de", &None, "Keyboard"), "de");
    assert_eq!(layout_label("de", &Some("nodeadkeys".to_string()), "Keyboard"), "de (nodeadkeys)");
}

#[test]
fn layout_list_checks_the_current_layout() {
    let keymaps = vec!["us".to_string(), "de".to_string()];
    let entries = layout_entries(&keymaps, "de");
    assert_eq!(entries, vec![("us".to_string(), false), ("de".to_string(), true)]);
}

#[test]
fn variant_list_offers_default_first() {
    let variants = vec!["nodeadkeys".to_string(), "deadtilde".to_string()];
    let entries = variant_entries("Default", &variants, &None);
    assert_eq!(entries[0], ("Default".to_string(), true));
    assert_eq!(entries[1], ("nodeadkeys".to_string(), false));
    let entries = variant_entries("Default", &variants, &Some("deadtilde".to_string()));
    assert_eq!(entries[0].1, false);
    assert_eq!(entries[2], ("deadtilde".to_string(), true));
    assert_eq!(variant_choice(&variants, 0), Some(None));
    assert_eq!(variant_choice(&variants, 2), Some(Some("deadtilde".to_string())));
    assert_eq!(variant_choice(&variants, 3), None);
}

#[test]
fn language_rows_check_the_current_code() {
    let languages = vec![
        LanguageEntry { code: "en".to_string(), name: "English".to_string() },
        LanguageEntry { code: "de".to_string(), name: "Deutsch".to_string() },
    ];
    assert_eq!(
        language_entries(&languages, "de"),
        vec![("English".to_string(), false), ("Deutsch".to_string(), true)]
    );
}

#[test]
fn failures_show_the_daemon_error() {
    assert_eq!(failure_text("Change failed", "unsupported language"), "Change failed (unsupported language)");
}
