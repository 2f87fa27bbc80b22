use systemsettings::daemon::{WallpaperEntry, WallpaperState};
use systemsettings::views::wallpaper::{
    current_name, fill_at, fill_index, fill_key, thumb_file_name, FILL_ORDER,
};

#[test]
fn fill_modes_resolve_in_order() {
    assert_eq!(FILL_ORDER, ["fill", "fit", "stretch", "center", "tile"]);
    assert_eq!(fill_index("fill"), 0);
    assert_eq!(fill_index("tile"), 4);
    assert_eq!(fill_index("melt"), 0);
    assert_eq!(fill_key("center"), "wallpaper.fill.center");
}

#[test]
fn every_fill_mode_finds_its_position() {
    for (i, fill) in FILL_ORDER.iter().enumerate() {
        assert_eq!(fill_index(fill), i as u32);
    }
    assert_eq!(fill_index(""), 0);
    assert_eq!(fill_index("Fill"), 0);
}

#[test]
fn thumb_names_are_sixteen_hex_digits() {
    assert_eq!(thumb_file_name(0), "0000000000000000.png");
    assert_eq!(thumb_file_name(0xdead_beef), "00000000deadbeef.png");
    assert_eq!(thumb_file_name(u64::MAX), "ffffffffffffffff.png");
    assert_eq!(thumb_file_name(0x0123_4567_89ab_cdef), format!("{:016x}.png", 0x0123_4567_89ab_cdefu64));
}

#[test]
fn dropdown_rows_map_to_fill_modes() {
    assert_eq!(fill_at(0), "fill");
    assert_eq!(fill_at(3), "center");
    assert_eq!(fill_at(4), "tile");
    assert_eq!(fill_at(5), "fill");
    for i in 0..5u32 {
        assert_eq!(fill_index(fill_at(i)), i);
    }
}

#[test]
fn current_wallpaper_name_or_placeholder() {
    let mut state = WallpaperState::default();
    assert_eq!(current_name(&state, "No wallpaper"), "No wallpaper");
    state.current = Some(WallpaperEntry {
        kind: "premade".to_string(),
        id: "SONOMA".to_string(),
        name: "Sonoma".to_string(),
        path: "/wp/sonoma.png".to_string(),
        path_dark: "/wp/sonoma-dark.png".to_string(),
    });
    assert_eq!(current_name(&state, "No wallpaper"), "Sonoma");
}
