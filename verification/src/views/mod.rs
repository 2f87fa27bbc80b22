//! Page logic of the settings window, one module per page, and what the
//! pages share: the palette and the names of cached icon files.

pub mod about;
pub mod customize;
pub mod datetime;
pub mod displays;
pub mod general;
pub mod locale;
pub mod root;
pub mod wallpaper;
pub mod wifi;

use vstd::prelude::*;
use crate::text::{
    contains, decimal, hex_char, hex_digit, lowercased, occurs_in, push_char, push_decimal, push_str, to_lowercase,
};

verus! {

/// An RGB tile color.
#[derive(Clone, Copy, Debug, PartialEq, Eq)]
pub struct Rgb {
    pub r: u8,
    pub g: u8,
    pub b: u8,
}

/// Blue of the Wi-Fi and info tiles.
#[verifier::allow_in_spec]
pub fn wifi_blue() -> Rgb
    returns
        (Rgb { r: 0, g: 122, b: 255 }),
{
    Rgb { r: 0, g: 122, b: 255 }
}

/// Green of the battery tile.
#[verifier::allow_in_spec]
pub fn battery_green() -> Rgb
    returns
        (Rgb { r: 52, g: 199, b: 89 }),
{
    Rgb { r: 52, g: 199, b: 89 }
}

/// Gray of the neutral tiles.
#[verifier::allow_in_spec]
pub fn badge_gray() -> Rgb
    returns
        (Rgb { r: 142, g: 142, b: 147 }),
{
    Rgb { r: 142, g: 142, b: 147 }
}

/// Black of the clock tile.
#[verifier::allow_in_spec]
pub fn ink_black() -> Rgb
    returns
        (Rgb { r: 0, g: 0, b: 0 }),
{
    Rgb { r: 0, g: 0, b: 0 }
}

/// Orange of the system's own tiles.
#[verifier::allow_in_spec]
pub fn tontoo_orange() -> Rgb
    returns
        (Rgb { r: 255, g: 107, b: 43 }),
{
    Rgb { r: 255, g: 107, b: 43 }
}

/// Teal of the wallpaper tile.
#[verifier::allow_in_spec]
pub fn wallpaper_teal() -> Rgb
    returns
        (Rgb { r: 48, g: 176, b: 199 }),
{
    Rgb { r: 48, g: 176, b: 199 }
}

/// Red of the notifications tile.
#[verifier::allow_in_spec]
pub fn alert_red() -> Rgb
    returns
        (Rgb { r: 255, g: 69, b: 58 }),
{
    Rgb { r: 255, g: 69, b: 58 }
}

/// Pink of the sound and Touch ID tiles.
#[verifier::allow_in_spec]
pub fn accent_pink() -> Rgb
    returns
        (Rgb { r: 255, g: 45, b: 85 }),
{
    Rgb { r: 255, g: 45, b: 85 }
}

/// Indigo of the focus and screen time tiles.
#[verifier::allow_in_spec]
pub fn focus_indigo() -> Rgb
    returns
        (Rgb { r: 88, g: 86, b: 214 }),
{
    Rgb { r: 88, g: 86, b: 214 }
}

/// Text and card colors of one appearance.
pub struct Palette {
    pub fg: &'static str,
    pub secondary: &'static str,
    pub card: &'static str,
}

/// The palette for dark or light appearance.
pub fn palette(dark: bool) -> (pal: Palette)
    ensures
        dark ==> pal.fg@ == "#F5F5F7"@ && pal.secondary@ == "#A1A1A6"@ && pal.card@
            == "#2C2C2E"@,
        !dark ==> pal.fg@ == "#1E1E1E"@ && pal.secondary@ == "#6E6E73"@ && pal.card@
            == "#F5F5F7"@,
{
    if dark {
        Palette { fg: "#F5F5F7", secondary: "#A1A1A6", card: "#2C2C2E" }
    } else {
        Palette { fg: "#1E1E1E", secondary: "#6E6E73", card: "#F5F5F7" }
    }
}

/// Two lowercase hexadecimal digits of a byte (`{:02x}`).
pub open spec fn hex2(v: u8) -> Seq<char> {
    seq![hex_digit((v / 16) as nat), hex_digit((v % 16) as nat)]
}

/// Name of the cached icon file for a tile: `settings_<tag>_<rrggbb>.png`
/// with the color in lowercase hexadecimal.
pub open spec fn icon_file_spec(tag: Seq<char>, color: Rgb) -> Seq<char> {
    "settings_"@ + tag + "_"@ + hex2(color.r) + hex2(color.g) + hex2(color.b) + ".png"@
}

/// The cached icon file name for a tile with this tag and color.
pub fn icon_file_name(tag: &str, color: Rgb) -> (name: String)
    ensures
        name@ == icon_file_spec(tag@, color),
{
    let mut name = String::new();
    push_str(&mut name, "settings_");
    push_str(&mut name, tag);
    push_str(&mut name, "_");
    push_char(&mut name, hex_char(color.r / 16));
    push_char(&mut name, hex_char(color.r % 16));
    push_char(&mut name, hex_char(color.g / 16));
    push_char(&mut name, hex_char(color.g % 16));
    push_char(&mut name, hex_char(color.b / 16));
    push_char(&mut name, hex_char(color.b % 16));
    push_str(&mut name, ".png");
    assert(name@ =~= icon_file_spec(tag@, color));
    name
}

/// Whether a list row stays visible for a search query: the lowercased
/// query is empty or occurs in the row's lowercased text.
pub open spec fn row_visible(text: Seq<char>, query: Seq<char>) -> bool {
    lowercased(query).len() == 0 || occurs_in(lowercased(text), lowercased(query))
}

/// Typing a row's own text, or any ending of the row's lowercased text,
/// keeps that row visible: a match may sit anywhere in the row, up to
/// its last character.
pub proof fn law_row_matches_its_ending(text: Seq<char>, query: Seq<char>)
    requires
        lowercased(query).len() <= lowercased(text).len(),
        lowercased(text).skip(lowercased(text).len() - lowercased(query).len()) == lowercased(query),
    ensures
        row_visible(text, query),
{
    let t = lowercased(text);
    let q = lowercased(query);
    let k = t.len() - q.len();
    assert(t.subrange(k, k + q.len()) =~= t.skip(k));
}

/// Every row stays visible when its own text is typed.
pub proof fn law_row_matches_itself(text: Seq<char>)
    ensures
        row_visible(text, text),
{
    let t = lowercased(text);
    assert(t.skip(0) =~= t);
    law_row_matches_its_ending(text, text);
}

/// A row hidden by a query stays hidden while more is typed: whatever
/// the longer query's lowercased text contains, a row showing it shows
/// the shorter one too.
pub proof fn law_narrowing_keeps_fewer_rows(text: Seq<char>, shorter: Seq<char>, longer: Seq<char>)
    requires
        lowercased(longer).len() > 0,
        occurs_in(lowercased(longer), lowercased(shorter)),
        row_visible(text, longer),
    ensures
        row_visible(text, shorter),
{
    let t = lowercased(text);
    let l = lowercased(longer);
    let s = lowercased(shorter);
    let i = choose|i: int| 0 <= i && i + l.len() <= t.len() && #[trigger] t.subrange(i, i + l.len()) == l;
    let j = choose|j: int| 0 <= j && j + s.len() <= l.len() && #[trigger] l.subrange(j, j + s.len()) == s;
    assert(t.subrange(i + j, i + j + s.len()) =~= l.subrange(j, j + s.len()));
}

/// Visibility of each row of a searchable list (time zones, languages,
/// regions, keyboard layouts) for the query typed so far.
pub fn visible_rows(items: &Vec<String>, query: &str) -> (visible: Vec<bool>)
    ensures
        visible@.len() == items@.len(),
        forall|i: int| 0 <= i < items@.len() ==> visible@[i] == row_visible(items@[i]@, query@),
{
    let q = to_lowercase(query);
    let mut visible: Vec<bool> = Vec::new();
    let n = items.len();
    let mut i: usize = 0;
    while i < n
        invariant
            i <= n,
            n == items@.len(),
            q@ == lowercased(query@),
            visible@.len() == i,
            forall|k: int| 0 <= k < i ==> visible@[k] == row_visible(items@[k]@, query@),
        decreases n - i,
    {
        let shown = if q.as_str().is_empty() {
            true
        } else {
            let text = to_lowercase(items[i].as_str());
            contains(text.as_str(), q.as_str())
        };
        visible.push(shown);
        i += 1;
    }
    visible
}

/// Font family of every label.
pub const SF_PRO: &'static str = "SF Pro Display";

/// Pango markup of a label: `text` (already markup-escaped) in SF Pro
/// Display at `size` points with `weight`, colored `color`.
pub open spec fn span_spec(escaped: Seq<char>, size: u32, weight: Seq<char>, color: Seq<char>) -> Seq<char> {
    "<span font_desc=\""@ + SF_PRO@ + " "@ + weight + " "@ + decimal(size as nat)
        + "\" foreground=\""@ + color + "\">"@ + escaped + "</span>"@
}

/// The Pango markup of a label (see `span_spec`). The text must come
/// escaped for markup already.
pub fn span_markup(escaped: &str, size: u32, weight: &str, color: &str) -> (markup: String)
    ensures
        markup@ == span_spec(escaped@, size, weight@, color@),
{
    let mut markup = String::new();
    push_str(&mut markup, "<span font_desc=\"");
    push_str(&mut markup, SF_PRO);
    push_str(&mut markup, " ");
    push_str(&mut markup, weight);
    push_str(&mut markup, " ");
    push_decimal(&mut markup, size as u64);
    push_str(&mut markup, "\" foreground=\"");
    push_str(&mut markup, color);
    push_str(&mut markup, "\">");
    push_str(&mut markup, escaped);
    push_str(&mut markup, "</span>");
    assert(markup@ =~= span_spec(escaped@, size, weight@, color@));
    markup
}

} // verus!
