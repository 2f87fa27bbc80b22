//! Wi-Fi page logic: which page state the daemon's answers lead to, the
//! rows of the known and nearby network lists, and their signal bars and
//! lock badges.

use vstd::prelude::*;
use crate::daemon::{KnownNetwork, WifiNetwork, WifiState};
use crate::text::{str_eq, trim, trimmed};

verus! {

/// What `str::to_uppercase` makes of a string (full Unicode case mapping).
pub uninterp spec fn uppercased(s: Seq<char>) -> Seq<char>;

/// Uppercase form of a string (`str::to_uppercase`). The contract names
/// the result; the Unicode mapping itself is not restated.
#[verifier::external_body]
fn to_uppercase(s: &str) -> (upper: String)
    ensures
        upper@ == uppercased(s@),
{
    s.to_uppercase()
}

/// Secured means anything but empty or `OPEN` (in any case), ignoring
/// surrounding whitespace.
pub open spec fn secured_spec(security: Seq<char>) -> bool {
    trimmed(security).len() > 0 && uppercased(trimmed(security)) != "OPEN"@
}

/// Whether a network's security label means it needs a password (shows
/// the lock badge).
pub fn is_secured(security: &str) -> (secured: bool)
    ensures
        secured == secured_spec(security@),
{
    let t = trim(security);
    if t.as_str().is_empty() {
        return false;
    }
    let upper = to_uppercase(t.as_str());
    label_secured(t.as_str(), upper.as_str())
}

/// Filled bars out of four for a signal percentage (clamped to 0-100).
pub open spec fn bars_for(signal_pct: i32) -> i32 {
    let p: int = if signal_pct < 0 {
        0
    } else if signal_pct > 100 {
        100
    } else {
        signal_pct as int
    };
    ((p + 24) / 25) as i32
}

/// How many of the four signal bars are filled for `signal_pct`.
pub fn filled_bars(signal_pct: i32) -> (filled: i32)
    ensures
        filled == bars_for(signal_pct),
        0 <= filled <= 4,
{
    let p = if signal_pct < 0 {
        0
    } else if signal_pct > 100 {
        100
    } else {
        signal_pct
    };
    let filled = (p + 24) / 25;
    if filled < 0 {
        0
    } else if filled > 4 {
        4
    } else {
        filled
    }
}

/// One network row. Known networks carry no live signal.
#[derive(Debug, Clone)]
pub struct NetworkRow {
    pub ssid: String,
    pub signal_pct: Option<i32>,
    pub secured: bool,
}

/// Page state resolved from the daemon.
#[derive(Debug)]
pub enum PageState {
    /// Daemon unreachable: header on plus example rows.
    Unreachable,
    /// No wireless adapter: both sections with the no-hardware note.
    NoAdapter,
    /// Radio off: header with the toggle off, no sections below.
    Off,
    /// Radio on: known networks plus the live scan.
    On { known: Vec<NetworkRow>, networks: Vec<NetworkRow> },
}

/// The page state decided by the radio status alone, or `None` when the
/// radio is on and the network lists decide it.
pub fn radio_gate(status: &Result<WifiState, String>) -> (state: Option<PageState>)
    ensures
        match status {
            Err(_) => state == Some(PageState::Unreachable),
            Ok(s) => if !s.available {
                state == Some(PageState::NoAdapter)
            } else if !s.enabled {
                state == Some(PageState::Off)
            } else {
                state is None
            },
        },
{
    match status {
        Err(_) => Some(PageState::Unreachable),
        Ok(s) => if !s.available {
            Some(PageState::NoAdapter)
        } else if !s.enabled {
            Some(PageState::Off)
        } else {
            None
        },
    }
}

/// A known network's row: no signal bars.
pub open spec fn known_row_matches(row: NetworkRow, k: KnownNetwork) -> bool {
    &&& row.ssid@ == k.ssid@
    &&& row.signal_pct is None
    &&& row.secured == secured_spec(k.security@)
}

/// A scanned network's row: bars from its signal.
pub open spec fn scan_row_matches(row: NetworkRow, n: WifiNetwork) -> bool {
    &&& row.ssid@ == n.ssid@
    &&& row.signal_pct == Some(n.signal_pct)
    &&& row.secured == secured_spec(n.security@)
}

/// Rows for the known networks, in order.
pub fn known_rows(known: &Vec<KnownNetwork>) -> (rows: Vec<NetworkRow>)
    ensures
        rows@.len() == known@.len(),
        forall|i: int| 0 <= i < rows@.len() ==> known_row_matches(#[trigger] rows@[i], known@[i]),
{
    let mut rows: Vec<NetworkRow> = Vec::new();
    let n = known.len();
    let mut i: usize = 0;
    while i < n
        invariant
            i <= n,
            n == known@.len(),
            rows@.len() == i,
            forall|j: int| 0 <= j < i ==> known_row_matches(#[trigger] rows@[j], known@[j]),
        decreases n - i,
    {
        let k = &known[i];
        let row = NetworkRow {
            ssid: k.ssid.clone(),
            signal_pct: None,
            secured: is_secured(k.security.as_str()),
        };
        rows.push(row);
        i += 1;
    }
    rows
}

/// Rows for the scanned networks, in order.
pub fn scan_rows(networks: &Vec<WifiNetwork>) -> (rows: Vec<NetworkRow>)
    ensures
        rows@.len() == networks@.len(),
        forall|i: int| 0 <= i < rows@.len() ==> scan_row_matches(#[trigger] rows@[i], networks@[i]),
{
    let mut rows: Vec<NetworkRow> = Vec::new();
    let n = networks.len();
    let mut i: usize = 0;
    while i < n
        invariant
            i <= n,
            n == networks@.len(),
            rows@.len() == i,
            forall|j: int| 0 <= j < i ==> scan_row_matches(#[trigger] rows@[j], networks@[j]),
        decreases n - i,
    {
        let w = &networks[i];
        let row = NetworkRow {
            ssid: w.ssid.clone(),
            signal_pct: Some(w.signal_pct),
            secured: is_secured(w.security.as_str()),
        };
        rows.push(row);
        i += 1;
    }
    rows
}

/// Example rows shown when the daemon cannot be asked: the home and lab
/// networks (localized names given), both secured, 82% and 64% signal.
pub fn example_rows(home: String, lab: String) -> (rows: Vec<NetworkRow>)
    ensures
        rows@.len() == 2,
        rows@[0].ssid == home && rows@[0].signal_pct == Some(82i32) && rows@[0].secured,
        rows@[1].ssid == lab && rows@[1].signal_pct == Some(64i32) && rows@[1].secured,
{
    let mut rows: Vec<NetworkRow> = Vec::new();
    rows.push(NetworkRow { ssid: home, signal_pct: Some(82), secured: true });
    rows.push(NetworkRow { ssid: lab, signal_pct: Some(64), secured: true });
    rows
}

/// The page with the radio on: the known networks (the daemon's list, or
/// none when it failed) and the scan (the daemon's list, or the example
/// rows when it failed).
pub fn radio_on_page(
    known: &Result<Vec<KnownNetwork>, String>,
    networks: &Result<Vec<WifiNetwork>, String>,
    examples: Vec<NetworkRow>,
) -> (state: PageState)
    ensures
        match state {
            PageState::On { known: k, networks: w } => {
                &&& match known {
                    Ok(list) => k@.len() == list@.len() && forall|i: int|
                        0 <= i < k@.len() ==> known_row_matches(#[trigger] k@[i], list@[i]),
                    Err(_) => k@.len() == 0,
                }
                &&& match networks {
                    Ok(list) => w@.len() == list@.len() && forall|i: int|
                        0 <= i < w@.len() ==> scan_row_matches(#[trigger] w@[i], list@[i]),
                    Err(_) => w@ == examples@,
                }
            },
            _ => false,
        },
{
    let k = match known {
        Ok(list) => known_rows(list),
        Err(_) => Vec::new(),
    };
    let w = match networks {
        Ok(list) => scan_rows(list),
        Err(_) => examples,
    };
    PageState::On { known: k, networks: w }
}

/// The header toggle for a page state: (on, sensitive). Without an
/// adapter it is off and insensitive; with the radio off it is off.
pub fn toggle_state(state: &PageState) -> (toggle: (bool, bool))
    ensures
        toggle == (match state {
            PageState::Unreachable => (true, true),
            PageState::NoAdapter => (false, false),
            PageState::Off => (false, true),
            PageState::On { .. } => (true, true),
        }),
{
    match state {
        PageState::Unreachable => (true, true),
        PageState::NoAdapter => (false, false),
        PageState::Off => (false, true),
        PageState::On { .. } => (true, true),
    }
}

/// One block of the Wi-Fi page below the header.
#[derive(Debug)]
pub enum Section {
    /// A small section header with this lang key.
    Header(&'static str),
    /// A wrapped secondary note with this lang key.
    Note(&'static str),
    /// Clickable network rows.
    Rows(Vec<NetworkRow>),
    /// The space between the known and the nearby networks.
    Gap,
}

/// Whether a section is the header with this key.
pub open spec fn is_header(s: Section, key: &str) -> bool {
    s matches Section::Header(k) && k@ == key@
}

/// Whether a section is the note with this key.
pub open spec fn is_note(s: Section, key: &str) -> bool {
    s matches Section::Note(k) && k@ == key@
}

/// What the page shows below the header for a page state: nothing with
/// the radio off; both section headers, each with the no-adapter note,
/// without an adapter; the example rows (given) under the Networks
/// header when the daemon is unreachable; with the radio on, the known
/// networks under their header followed by a gap when there are any, then
/// the nearby networks under the Networks header.
pub fn page_sections(state: PageState, examples: Vec<NetworkRow>) -> (sections: Vec<Section>)
    ensures
        match state {
            PageState::Off => sections@.len() == 0,
            PageState::NoAdapter => {
                &&& sections@.len() == 4
                &&& is_header(sections@[0], "wifi.known.header")
                &&& is_note(sections@[1], "wifi.no_adapter")
                &&& is_header(sections@[2], "wifi.networks.header")
                &&& is_note(sections@[3], "wifi.no_adapter")
            },
            PageState::Unreachable => {
                &&& sections@.len() == 2
                &&& is_header(sections@[0], "wifi.networks.header")
                &&& sections@[1] == Section::Rows(examples)
            },
            PageState::On { known, networks } => if known@.len() == 0 {
                &&& sections@.len() == 2
                &&& is_header(sections@[0], "wifi.networks.header")
                &&& sections@[1] == Section::Rows(networks)
            } else {
                &&& sections@.len() == 5
                &&& is_header(sections@[0], "wifi.known.header")
                &&& sections@[1] == Section::Rows(known)
                &&& sections@[2] is Gap
                &&& is_header(sections@[3], "wifi.networks.header")
                &&& sections@[4] == Section::Rows(networks)
            },
        },
{
    let mut sections: Vec<Section> = Vec::new();
    match state {
        PageState::Off => {},
        PageState::NoAdapter => {
            sections.push(Section::Header("wifi.known.header"));
            sections.push(Section::Note("wifi.no_adapter"));
            sections.push(Section::Header("wifi.networks.header"));
            sections.push(Section::Note("wifi.no_adapter"));
        },
        PageState::Unreachable => {
            sections.push(Section::Header("wifi.networks.header"));
            sections.push(Section::Rows(examples));
        },
        PageState::On { known, networks } => {
            if known.len() > 0 {
                sections.push(Section::Header("wifi.known.header"));
                sections.push(Section::Rows(known));
                sections.push(Section::Gap);
            }
            sections.push(Section::Header("wifi.networks.header"));
            sections.push(Section::Rows(networks));
        },
    }
    sections
}

/// Whether a trimmed, non-empty security label, uppercased, asks for a
/// password: anything but `OPEN`.
pub fn label_secured(trimmed: &str, upper: &str) -> (secured: bool)
    ensures
        secured == (trimmed@.len() > 0 && upper@ != "OPEN"@),
{
    !trimmed.is_empty() && !str_eq(upper, "OPEN")
}

/// Whether network row `index` of a list of `len` rows gets the thin
/// separator below it: every row but the last.
pub fn separator_after(index: usize, len: usize) -> (line: bool)
    ensures
        line == (index != (if len == 0 { 0 } else { len - 1 })),
{
    let last = if len == 0 { 0 } else { len - 1 };
    index != last
}

/// What the join dialog's Connect button does.
#[derive(Debug)]
pub enum JoinStep {
    /// A secured network with an empty password field: show the
    /// "password required" note and stay open.
    PasswordRequired,
    /// Ask the daemon to connect with this password (none for open
    /// networks).
    Connect(Option<String>),
}

/// The join dialog's decision for a network and the password typed.
pub fn join_step(secured: bool, entered: String) -> (step: JoinStep)
    ensures
        secured && entered@.len() == 0 ==> step is PasswordRequired,
        secured && entered@.len() > 0 ==> step == JoinStep::Connect(Some(entered)),
        !secured ==> step == JoinStep::Connect(None),
{
    if secured {
        if entered.as_str().is_empty() {
            JoinStep::PasswordRequired
        } else {
            JoinStep::Connect(Some(entered))
        }
    } else {
        JoinStep::Connect(None)
    }
}

} // verus!
