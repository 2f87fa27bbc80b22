use systemsettings::views::customize::{accent_key, display_for, fish_name, packs_from, ACCENTS};

#[test]
fn accent_keys_resolve() {
    assert_eq!(accent_key("orange"), "customize.accent.orange");
}

#[test]
fn accents_in_page_order() {
    assert_eq!(ACCENTS, ["orange", "blue", "green", "purple"]);
    assert_eq!(accent_key(ACCENTS[3]), "customize.accent.purple");
}

#[test]
fn manifest_names_are_trimmed_and_unquoted() {
    assert_eq!(fish_name(Some("name: \"Tahoe Lake\"\n")), Some("Tahoe Lake".to_string()));
    assert_eq!(fish_name(Some("  name:   Sonoma  \r\n")), Some("Sonoma".to_string()));
    assert_eq!(fish_name(Some("kind: pack\nname: \"\"\nname: \" Ventura \"\n")), Some("Ventura".to_string()));
    assert_eq!(fish_name(Some("title: x\n")), None);
    assert_eq!(fish_name(Some("")), None);
    assert_eq!(fish_name(None), None);
}

#[test]
fn packs_use_manifest_names_and_fall_back_to_dir_names() {
    let packs = packs_from(vec![
        ("VENTURA".to_string(), None),
        ("THAOELAKE".to_string(), Some("name: \"Tahoe Lake\"\n".to_string())),
    ]);
    assert_eq!(
        packs,
        vec![
            ("THAOELAKE".to_string(), "Tahoe Lake".to_string()),
            ("VENTURA".to_string(), "VENTURA".to_string()),
        ]
    );
    assert_eq!(display_for(&packs, "VENTURA"), "VENTURA");
    assert_eq!(display_for(&packs, "THAOELAKE"), "Tahoe Lake");
    assert_eq!(display_for(&packs, "MISSING"), "MISSING");
}

#[test]
fn no_pack_folders_yield_no_packs() {
    assert!(packs_from(Vec::new()).is_empty());
}

#[test]
fn packs_sort_by_display_name() {
    let packs = packs_from(vec![
        ("c".to_string(), Some("name: Zeta".to_string())),
        ("a".to_string(), Some("name: alpha".to_string())),
        ("b".to_string(), Some("name: Beta".to_string())),
        ("d".to_string(), Some("broken".to_string())),
    ]);
    let names: Vec<&str> = packs.iter().map(|p| p.1.as_str()).collect();
    assert_eq!(names, vec!["Beta", "Zeta", "alpha", "d"]);
}

#[test]
fn each_pack_is_found_under_its_display_name() {
    let entries = vec![
        ("B".to_string(), Some("name: \"Same\"".to_string())),
        ("A".to_string(), Some("name: Same".to_string())),
        ("C".to_string(), None),
    ];
    let packs = packs_from(entries);
    assert_eq!(packs.len(), 3);
    assert_eq!(display_for(&packs, "A"), "Same");
    assert_eq!(display_for(&packs, "B"), "Same");
    assert_eq!(display_for(&packs, "C"), "C");
}

#[test]
fn equal_display_names_keep_folder_order() {
    let packs = packs_from(vec![
        ("B".to_string(), Some("name: Same".to_string())),
        ("Z".to_string(), Some("name: Alpha".to_string())),
        ("A".to_string(), Some("name: Same".to_string())),
    ]);
    let ids: Vec<&str> = packs.iter().map(|p| p.0.as_str()).collect();
    assert_eq!(ids, vec!["Z", "B", "A"]);
}
