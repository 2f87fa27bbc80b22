//! Wallpaper page logic: the fill modes offered, their lang keys, and the
//! names of cached thumbnails.

use vstd::prelude::*;
use crate::text::{hex_char, hex_digit, push_char, push_str, str_eq};
use crate::daemon::WallpaperState;

verus! {

/// Fill mode ids in dropdown order (daemon `wallpaper` values).
pub const FILL_ORDER: [&'static str; 5] = ["fill", "fit", "stretch", "center", "tile"];

/// Lang key for a fill mode label: `wallpaper.fill.<id>`.
pub fn fill_key(fill: &str) -> (key: String)
    ensures
        key@ == "wallpaper.fill."@ + fill@,
{
    let mut key = String::new();
    push_str(&mut key, "wallpaper.fill.");
    push_str(&mut key, fill);
    key
}

/// Position of a fill mode in the dropdown order, 0 when unknown.
pub open spec fn fill_position(fill: Seq<char>) -> u32 {
    if fill == "fill"@ {
        0
    } else if fill == "fit"@ {
        1
    } else if fill == "stretch"@ {
        2
    } else if fill == "center"@ {
        3
    } else if fill == "tile"@ {
        4
    } else {
        0
    }
}

/// Index of a fill mode in the dropdown order (0 when unknown).
pub fn fill_index(fill: &str) -> (index: u32)
    ensures
        index == fill_position(fill@),
{
    if str_eq(fill, "fill") {
        0
    } else if str_eq(fill, "fit") {
        1
    } else if str_eq(fill, "stretch") {
        2
    } else if str_eq(fill, "center") {
        3
    } else if str_eq(fill, "tile") {
        4
    } else {
        0
    }
}

/// The fill mode of dropdown row `index`; `fill` past the end.
pub fn fill_at(index: u32) -> (fill: &'static str)
    ensures
        index < 5 ==> fill@ == FILL_ORDER@[index as int]@,
        index >= 5 ==> fill@ == "fill"@,
{
    if index < 5 {
        FILL_ORDER[index as usize]
    } else {
        "fill"
    }
}

/// Name shown for the current wallpaper: its name, else the localized
/// "no wallpaper" text given.
pub fn current_name(state: &WallpaperState, no_wallpaper: &str) -> (name: String)
    ensures
        name@ == (match state.current {
            Some(e) => e.name@,
            None => no_wallpaper@,
        }),
{
    match &state.current {
        Some(e) => e.name.clone(),
        None => no_wallpaper.to_string(),
    }
}

/// Each fill mode of the dropdown resolves to its own position, so the
/// dropdown shows the daemon's mode selected.
pub proof fn law_fill_order_resolves(i: int)
    requires
        0 <= i < 5,
    ensures
        fill_position(FILL_ORDER@[i]@) == i,
{
    reveal_strlit("fill");
    reveal_strlit("fit");
    reveal_strlit("stretch");
    reveal_strlit("center");
    reveal_strlit("tile");
    assert(FILL_ORDER@[0]@ == "fill"@);
    assert(FILL_ORDER@[1]@ == "fit"@);
    assert(FILL_ORDER@[2]@ == "stretch"@);
    assert(FILL_ORDER@[3]@ == "center"@);
    assert(FILL_ORDER@[4]@ == "tile"@);
    assert("fit"@.len() != "fill"@.len());
    assert("stretch"@.len() != "fill"@.len() && "stretch"@.len() != "fit"@.len());
    assert("center"@.len() != "fill"@.len() && "center"@.len() != "fit"@.len() && "center"@.len()
        != "stretch"@.len());
    assert("tile"@[0] != "fill"@[0] && "tile"@.len() != "fit"@.len() && "tile"@.len()
        != "stretch"@.len() && "tile"@.len() != "center"@.len());
}

/// The last `width` hexadecimal digits of `v`, lowercase, zero-padded.
pub open spec fn hex_fixed(v: nat, width: nat) -> Seq<char>
    decreases width,
{
    if width == 0 {
        Seq::empty()
    } else {
        hex_fixed(v / 16, (width - 1) as nat).push(hex_digit(v % 16))
    }
}

fn push_hex(s: &mut String, v: u64, width: u32)
    ensures
        final(s)@ == old(s)@ + hex_fixed(v as nat, width as nat),
    decreases width,
{
    if width > 0 {
        push_hex(s, v / 16, width - 1);
        let c = hex_char((v % 16) as u8);
        push_char(s, c);
        assert(old(s)@ + hex_fixed(v as nat, width as nat) =~= old(s)@ + hex_fixed(
            (v / 16) as nat,
            (width - 1) as nat,
        ) + seq![c]);
    }
}

/// File name of a cached thumbnail for a source whose path, size and
/// modification time hash to `hash`: 16 lowercase hex digits and `.png`.
pub fn thumb_file_name(hash: u64) -> (name: String)
    ensures
        name@ == hex_fixed(hash as nat, 16) + ".png"@,
{
    let mut name = String::new();
    push_hex(&mut name, hash, 16);
    push_str(&mut name, ".png");
    assert(name@ =~= hex_fixed(hash as nat, 16) + ".png"@);
    name
}

} // verus!
