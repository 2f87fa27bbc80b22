//! General page logic: the rows of the page in their order, the cards
//! they are grouped into, the About row's navigation, and the tag that
//! scopes each row's cached icon.

use vstd::prelude::*;
use crate::text::replace_all;
use super::{Rgb, badge_gray, ink_black, tontoo_orange, wifi_blue};
use super::root::NavState;

verus! {

/// One General row: lang key, SF Symbol name and tile color.
pub struct GeneralRow {
    pub key: &'static str,
    pub symbol: &'static str,
    pub color: Rgb,
}

/// Whether a row has this key, symbol and color.
pub open spec fn row_is(row: GeneralRow, key: &str, symbol: &str, color: Rgb) -> bool {
    row.key@ == key@ && row.symbol@ == symbol@ && row.color == color
}

/// The rows in page order (see `card_of_row` for their cards).
pub fn general_rows() -> (rows: Vec<GeneralRow>)
    ensures
        rows@.len() == 13,
        row_is(rows@[0], "general.about", "questionmark.circle.fill", wifi_blue()),
        row_is(rows@[1], "general.software_update", "arrow.triangle.2.circlepath", wifi_blue()),
        row_is(rows@[2], "general.storage", "internaldrive.fill", badge_gray()),
        row_is(rows@[3], "general.airdrop", "square.and.arrow.up", badge_gray()),
        row_is(rows@[4], "general.autofill", "key.fill", badge_gray()),
        row_is(rows@[5], "general.datetime", "clock.fill", ink_black()),
        row_is(rows@[6], "general.language", "globe", wifi_blue()),
        row_is(rows@[7], "general.login_items", "square.stack.3d.up.fill", tontoo_orange()),
        row_is(rows@[8], "general.sharing", "person.2.circle.fill", badge_gray()),
        row_is(rows@[9], "general.startup_disk", "internaldrive.fill", badge_gray()),
        row_is(rows@[10], "general.time_machine", "clock.arrow.circlepath", badge_gray()),
        row_is(rows@[11], "general.device_management", "checkmark.seal.fill", badge_gray()),
        row_is(rows@[12], "general.transfer_reset", "arrow.triangle.swap", badge_gray()),
{
    let mut rows: Vec<GeneralRow> = Vec::new();
    rows.push(GeneralRow { key: "general.about", symbol: "questionmark.circle.fill", color: wifi_blue() });
    rows.push(GeneralRow { key: "general.software_update", symbol: "arrow.triangle.2.circlepath", color: wifi_blue() });
    rows.push(GeneralRow { key: "general.storage", symbol: "internaldrive.fill", color: badge_gray() });
    rows.push(GeneralRow { key: "general.airdrop", symbol: "square.and.arrow.up", color: badge_gray() });
    rows.push(GeneralRow { key: "general.autofill", symbol: "key.fill", color: badge_gray() });
    rows.push(GeneralRow { key: "general.datetime", symbol: "clock.fill", color: ink_black() });
    rows.push(GeneralRow { key: "general.language", symbol: "globe", color: wifi_blue() });
    rows.push(GeneralRow { key: "general.login_items", symbol: "square.stack.3d.up.fill", color: tontoo_orange() });
    rows.push(GeneralRow { key: "general.sharing", symbol: "person.2.circle.fill", color: badge_gray() });
    rows.push(GeneralRow { key: "general.startup_disk", symbol: "internaldrive.fill", color: badge_gray() });
    rows.push(GeneralRow { key: "general.time_machine", symbol: "clock.arrow.circlepath", color: badge_gray() });
    rows.push(GeneralRow { key: "general.device_management", symbol: "checkmark.seal.fill", color: badge_gray() });
    rows.push(GeneralRow { key: "general.transfer_reset", symbol: "arrow.triangle.swap", color: badge_gray() });
    rows
}

/// Tag scoping a row's cached icon: the key with `general.` replaced by
/// `general-row-` wherever it occurs.
pub fn row_tag(key: &str) -> (tag: String)
    ensures
        tag@ == crate::text::replaced(key@, "general."@, "general-row-"@),
{
    proof {
        reveal_strlit("general.");
    }
    replace_all(key, "general.", "general-row-")
}

/// Index of the hidden About page, behind the General About row.
pub const ABOUT_PAGE: usize = 28;

/// The card a row sits in: About, Software Update and Storage together
/// (card 0), AirDrop & Handoff alone (1), AutoFill & Passwords through
/// Time Machine together (2), Device Management and Transfer or Reset
/// (3).
pub open spec fn card_spec(index: int) -> usize {
    if index < 3 {
        0
    } else if index < 4 {
        1
    } else if index < 11 {
        2
    } else {
        3
    }
}

/// The card row `index` (of `general_rows`) is grouped into; none past
/// the last row.
pub fn card_of_row(index: usize) -> (card: Option<usize>)
    ensures
        index < 13 ==> card == Some(card_spec(index as int)),
        index >= 13 ==> card is None,
{
    if index < 3 {
        Some(0)
    } else if index < 4 {
        Some(1)
    } else if index < 11 {
        Some(2)
    } else if index < 13 {
        Some(3)
    } else {
        None
    }
}

/// A click on row `index`: the About row (0) visits the hidden About page
/// through the history; every other row is display only.
pub fn open_row(nav: &mut NavState, index: usize) -> (opened: bool)
    requires
        old(nav).wf(),
    ensures
        final(nav).wf(),
        opened == (index == 0),
        index == 0 ==> final(nav)@ == old(nav)@.after_go(ABOUT_PAGE),
        index != 0 ==> final(nav)@ == old(nav)@,
{
    if index == 0 {
        nav.go(ABOUT_PAGE);
        true
    } else {
        false
    }
}

} // verus!
