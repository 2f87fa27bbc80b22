//! Language & Region page logic: the texts and choices of the region and
//! keyboard pickers.

use vstd::prelude::*;
use crate::daemon::{LanguageEntry, RegionEntry};
use crate::text::{push_str, str_eq};

verus! {

/// Text of the keyboard menu button: the localized "Keyboard" label when
/// no layout is set, else the layout with its variant in parentheses.
pub fn layout_label(keymap: &str, variant: &Option<String>, keyboard_label: &str) -> (label: String)
    ensures
        label@ == (if keymap@.len() == 0 {
            keyboard_label@
        } else {
            match variant {
                Some(v) => keymap@ + " ("@ + v@ + ")"@,
                None => keymap@,
            }
        }),
{
    if keymap.is_empty() {
        keyboard_label.to_string()
    } else {
        match variant {
            Some(v) => {
                let mut label = keymap.to_string();
                push_str(&mut label, " (");
                push_str(&mut label, v.as_str());
                push_str(&mut label, ")");
                label
            },
            None => keymap.to_string(),
        }
    }
}

/// Index of the first region whose code is `code`.
pub open spec fn region_with_code(regions: Seq<RegionEntry>, code: Seq<char>, from: int) -> Option<int>
    decreases regions.len() - from,
{
    if from < 0 || from >= regions.len() {
        None
    } else if regions[from].code@ == code {
        Some(from)
    } else {
        region_with_code(regions, code, from + 1)
    }
}

/// Index of the first region whose name is `name`.
pub open spec fn region_with_name(regions: Seq<RegionEntry>, name: Seq<char>, from: int) -> Option<int>
    decreases regions.len() - from,
{
    if from < 0 || from >= regions.len() {
        None
    } else if regions[from].name@ == name {
        Some(from)
    } else {
        region_with_name(regions, name, from + 1)
    }
}

/// No two listed regions share a name.
pub open spec fn region_names_distinct(regions: Seq<RegionEntry>) -> bool {
    forall|i: int, j: int|
        0 <= i < j < regions.len() ==> #[trigger] regions[i].name@ != #[trigger] regions[j].name@
}

proof fn lemma_found_code(regions: Seq<RegionEntry>, code: Seq<char>, from: int)
    ensures
        match region_with_code(regions, code, from) {
            Some(i) => from <= i < regions.len() && regions[i].code@ == code,
            None => true,
        },
    decreases regions.len() - from,
{
    if 0 <= from < regions.len() && regions[from].code@ != code {
        lemma_found_code(regions, code, from + 1);
    }
}

proof fn lemma_find_own_name(regions: Seq<RegionEntry>, i: int, from: int)
    requires
        region_names_distinct(regions),
        0 <= from <= i < regions.len(),
    ensures
        region_with_name(regions, regions[i].name@, from) == Some(i),
    decreases i - from,
{
    if from < i {
        assert(regions[from].name@ != regions[i].name@);
        lemma_find_own_name(regions, i, from + 1);
    }
}

/// Picking the name shown for a listed region code gives that code back,
/// as long as no two regions share a name.
pub proof fn law_region_pick_round_trip(regions: Seq<RegionEntry>, code: Seq<char>)
    requires
        region_names_distinct(regions),
        region_with_code(regions, code, 0) is Some,
    ensures
        ({
            let i = region_with_code(regions, code, 0)->0;
            &&& region_with_name(regions, regions[i].name@, 0) == Some(i)
            &&& regions[i].code@ == code
        }),
{
    lemma_found_code(regions, code, 0);
    let i = region_with_code(regions, code, 0)->0;
    lemma_find_own_name(regions, i, 0);
}

/// Name of the current region: the listed name for its code, else the
/// code itself.
pub fn region_display_name(regions: &Vec<RegionEntry>, region: &str) -> (name: String)
    ensures
        name@ == (match region_with_code(regions@, region@, 0) {
            Some(i) => regions@[i].name@,
            None => region@,
        }),
{
    let n = regions.len();
    let mut i: usize = 0;
    while i < n
        invariant
            i <= n,
            n == regions@.len(),
            region_with_code(regions@, region@, 0) == region_with_code(regions@, region@, i as int),
        decreases n - i,
    {
        if str_eq(regions[i].code.as_str(), region) {
            return regions[i].name.clone();
        }
        i += 1;
    }
    region.to_string()
}

/// Code of the region picked by name: the first listed region with that
/// name, empty when none (the pick is then ignored).
pub fn region_code_for(regions: &Vec<RegionEntry>, name: &str) -> (code: String)
    ensures
        code@ == (match region_with_name(regions@, name@, 0) {
            Some(i) => regions@[i].code@,
            None => Seq::empty(),
        }),
{
    let n = regions.len();
    let mut i: usize = 0;
    while i < n
        invariant
            i <= n,
            n == regions@.len(),
            region_with_name(regions@, name@, 0) == region_with_name(regions@, name@, i as int),
        decreases n - i,
    {
        if str_eq(regions[i].name.as_str(), name) {
            return regions[i].code.clone();
        }
        i += 1;
    }
    String::new()
}

/// Rows of a pick list with the current entry checked: the keyboard
/// layouts, and the time zones of the Date & Time menu.
pub fn layout_entries(keymaps: &Vec<String>, current: &str) -> (entries: Vec<(String, bool)>)
    ensures
        entries@.len() == keymaps@.len(),
        forall|i: int|
            0 <= i < entries@.len() ==> (#[trigger] entries@[i]).0@ == keymaps@[i]@ && entries@[i].1
                == (keymaps@[i]@ == current@),
{
    let mut entries: Vec<(String, bool)> = Vec::new();
    let n = keymaps.len();
    let mut i: usize = 0;
    while i < n
        invariant
            i <= n,
            n == keymaps@.len(),
            entries@.len() == i,
            forall|j: int|
                0 <= j < i ==> (#[trigger] entries@[j]).0@ == keymaps@[j]@ && entries@[j].1 == (
                keymaps@[j]@ == current@),
        decreases n - i,
    {
        let layout = &keymaps[i];
        entries.push((layout.clone(), str_eq(layout.as_str(), current)));
        i += 1;
    }
    entries
}

/// Variant list rows: the default variant first (checked when no variant
/// is set), then each variant (checked when it is the current one).
pub fn variant_entries(default_label: &str, variants: &Vec<String>, current: &Option<String>) -> (entries: Vec<(String, bool)>)
    ensures
        entries@.len() == variants@.len() + 1,
        entries@[0].0@ == default_label@,
        entries@[0].1 == current is None,
        forall|i: int|
            0 <= i < variants@.len() ==> (#[trigger] entries@[i + 1]).0@ == variants@[i]@
                && entries@[i + 1].1 == (match current {
                Some(c) => c@ == variants@[i]@,
                None => false,
            }),
{
    let mut entries: Vec<(String, bool)> = Vec::new();
    entries.push((default_label.to_string(), current.is_none()));
    let n = variants.len();
    let mut i: usize = 0;
    while i < n
        invariant
            i <= n,
            n == variants@.len(),
            entries@.len() == i + 1,
            entries@[0].0@ == default_label@,
            entries@[0].1 == current is None,
            forall|j: int|
                0 <= j < i ==> (#[trigger] entries@[j + 1]).0@ == variants@[j]@ && entries@[j + 1].1
                    == (match current {
                    Some(c) => c@ == variants@[j]@,
                    None => false,
                }),
        decreases n - i,
    {
        let v = &variants[i];
        let checked = match current {
            Some(c) => str_eq(c.as_str(), v.as_str()),
            None => false,
        };
        entries.push((v.clone(), checked));
        i += 1;
    }
    entries
}

/// What picking row `index` of the variant list applies: row 0 the
/// default variant (`Some(None)`), row `i + 1` variant `i`, anything else
/// nothing.
pub fn variant_choice(variants: &Vec<String>, index: usize) -> (choice: Option<Option<String>>)
    ensures
        match choice {
            Some(None) => index == 0,
            Some(Some(v)) => 1 <= index <= variants@.len() && v@ == variants@[index - 1]@,
            None => index > variants@.len(),
        },
{
    if index == 0 {
        Some(None)
    } else if index - 1 < variants.len() {
        Some(Some(variants[index - 1].clone()))
    } else {
        None
    }
}

/// System language rows: each language's name, checked when its code is
/// the current language.
pub fn language_entries(languages: &Vec<LanguageEntry>, current: &str) -> (entries: Vec<(String, bool)>)
    ensures
        entries@.len() == languages@.len(),
        forall|i: int|
            0 <= i < entries@.len() ==> (#[trigger] entries@[i]).0@ == languages@[i].name@
                && entries@[i].1 == (languages@[i].code@ == current@),
{
    let mut entries: Vec<(String, bool)> = Vec::new();
    let n = languages.len();
    let mut i: usize = 0;
    while i < n
        invariant
            i <= n,
            n == languages@.len(),
            entries@.len() == i,
            forall|j: int|
                0 <= j < i ==> (#[trigger] entries@[j]).0@ == languages@[j].name@ && entries@[j].1
                    == (languages@[j].code@ == current@),
        decreases n - i,
    {
        let language = &languages[i];
        entries.push((language.name.clone(), str_eq(language.code.as_str(), current)));
        i += 1;
    }
    entries
}

/// Error text under a card after a failed change: the localized failure
/// label, then the daemon's error in parentheses.
pub fn failure_text(label: &str, error: &str) -> (text: String)
    ensures
        text@ == label@ + " ("@ + error@ + ")"@,
{
    let mut text = String::new();
    push_str(&mut text, label);
    push_str(&mut text, " (");
    push_str(&mut text, error);
    push_str(&mut text, ")");
    text
}

} // verus!
