use systemsettings::daemon::{KnownNetwork, WifiNetwork, WifiState};
use systemsettings::views::wifi::{
    example_rows, filled_bars, is_secured, join_step, known_rows, radio_gate, radio_on_page,
    scan_rows, toggle_state, JoinStep, PageState,
};
use systemsettings::views::wifi::label_secured;
use systemsettings::views::wifi::{page_sections, separator_after, Section};

#[test]
fn open_networks_have_no_lock() {
    assert!(!is_secured("OPEN"));
    assert!(!is_secured("open"));
    assert!(!is_secured(""));
}

#[test]
fn secured_networks_show_lock() {
    assert!(is_secured("WPA2"));
    assert!(is_secured("WPA3"));
    assert!(is_secured("WEP"));
}

#[test]
fn security_label_is_trimmed_and_case_folded() {
    assert!(!is_secured("  Open \n"));
    assert!(!is_secured("   "));
    assert!(is_secured(" wpa2 "));
    assert!(is_secured("OPENWRT"));
}

#[test]
fn signal_bars_round_up_per_quarter() {
    assert_eq!(filled_bars(-5), 0);
    assert_eq!(filled_bars(0), 0);
    assert_eq!(filled_bars(1), 1);
    assert_eq!(filled_bars(25), 1);
    assert_eq!(filled_bars(26), 2);
    assert_eq!(filled_bars(64), 3);
    assert_eq!(filled_bars(82), 4);
    assert_eq!(filled_bars(100), 4);
    assert_eq!(filled_bars(250), 4);
}

fn radio(enabled: bool, available: bool) -> Result<WifiState, String> {
    Ok(WifiState { enabled, available, current: None })
}

#[test]
fn radio_status_decides_page_state() {
    assert!(matches!(radio_gate(&Err("down".to_string())), Some(PageState::Unreachable)));
    assert!(matches!(radio_gate(&radio(true, false)), Some(PageState::NoAdapter)));
    assert!(matches!(radio_gate(&radio(false, false)), Some(PageState::NoAdapter)));
    assert!(matches!(radio_gate(&radio(false, true)), Some(PageState::Off)));
    assert!(radio_gate(&radio(true, true)).is_none());
}

#[test]
fn header_toggle_follows_page_state() {
    assert_eq!(toggle_state(&PageState::Unreachable), (true, true));
    assert_eq!(toggle_state(&PageState::NoAdapter), (false, false));
    assert_eq!(toggle_state(&PageState::Off), (false, true));
    let on = PageState::On { known: Vec::new(), networks: Vec::new() };
    assert_eq!(toggle_state(&on), (true, true));
}

fn known(ssid: &str, security: &str) -> KnownNetwork {
    KnownNetwork { ssid: ssid.to_string(), security: security.to_string(), last_connected: 0, auto_join: true }
}

fn scanned(ssid: &str, signal_pct: i32, security: &str) -> WifiNetwork {
    WifiNetwork {
        ssid: ssid.to_string(),
        bssid: None,
        signal_pct,
        frequency_mhz: Some(2437),
        security: security.to_string(),
        known: false,
    }
}

#[test]
fn known_rows_have_no_signal() {
    let rows = known_rows(&vec![known("HomeNet", "WPA2"), known("Cafe", "OPEN")]);
    assert_eq!(rows.len(), 2);
    assert_eq!(rows[0].ssid, "HomeNet");
    assert_eq!(rows[0].signal_pct, None);
    assert!(rows[0].secured);
    assert_eq!(rows[1].ssid, "Cafe");
    assert!(!rows[1].secured);
}

#[test]
fn scan_rows_keep_signal_and_lock() {
    let rows = scan_rows(&vec![scanned("HomeNet", 80, "WPA2"), scanned("Cafe", 40, "")]);
    assert_eq!(rows.len(), 2);
    assert_eq!(rows[0].signal_pct, Some(80));
    assert!(rows[0].secured);
    assert_eq!(rows[1].signal_pct, Some(40));
    assert!(!rows[1].secured);
}

#[test]
fn failed_scan_falls_back_to_examples() {
    let examples = example_rows("Home".to_string(), "Lab".to_string());
    assert_eq!(examples.len(), 2);
    assert_eq!(examples[0].signal_pct, Some(82));
    assert_eq!(examples[1].signal_pct, Some(64));
    let state = radio_on_page(&Ok(vec![known("HomeNet", "WPA2")]), &Err("scan failed".to_string()), examples);
    match state {
        PageState::On { known, networks } => {
            assert_eq!(known.len(), 1);
            assert_eq!(networks.len(), 2);
            assert_eq!(networks[0].ssid, "Home");
            assert_eq!(networks[1].ssid, "Lab");
        }
        _ => panic!("radio on page expected"),
    }
}

#[test]
fn join_needs_password_only_for_secured_networks() {
    assert!(matches!(join_step(true, String::new()), JoinStep::PasswordRequired));
    match join_step(true, "hunter2".to_string()) {
        JoinStep::Connect(Some(p)) => assert_eq!(p, "hunter2"),
        _ => panic!("connect with password expected"),
    }
    assert!(matches!(join_step(false, "ignored".to_string()), JoinStep::Connect(None)));
    assert!(matches!(join_step(false, String::new()), JoinStep::Connect(None)));
}

#[test]
fn page_sections_follow_state() {
    let examples = || example_rows("HomeNet".to_string(), "TontooLab".to_string());
    assert!(page_sections(PageState::Off, examples()).is_empty());
    let s = page_sections(PageState::NoAdapter, examples());
    assert_eq!(s.len(), 4);
    assert!(matches!(s[0], Section::Header("wifi.known.header")));
    assert!(matches!(s[1], Section::Note("wifi.no_adapter")));
    assert!(matches!(s[2], Section::Header("wifi.networks.header")));
    assert!(matches!(s[3], Section::Note("wifi.no_adapter")));
    let s = page_sections(PageState::Unreachable, examples());
    assert_eq!(s.len(), 2);
    assert!(matches!(&s[1], Section::Rows(rows) if rows.len() == 2 && rows[0].ssid == "HomeNet"));
    let on = PageState::On { known: Vec::new(), networks: scan_rows(&vec![scanned("Cafe", 40, "")]) };
    let s = page_sections(on, examples());
    assert_eq!(s.len(), 2);
    assert!(matches!(s[0], Section::Header("wifi.networks.header")));
    let on = PageState::On { known: known_rows(&vec![known("HomeNet", "WPA2")]), networks: Vec::new() };
    let s = page_sections(on, examples());
    assert_eq!(s.len(), 5);
    assert!(matches!(s[0], Section::Header("wifi.known.header")));
    assert!(matches!(&s[1], Section::Rows(rows) if rows.len() == 1));
    assert!(matches!(s[2], Section::Gap));
    assert!(matches!(s[3], Section::Header("wifi.networks.header")));
    assert!(matches!(&s[4], Section::Rows(rows) if rows.is_empty()));
}

#[test]
fn failed_known_list_shows_no_known_rows() {
    let state = radio_on_page(&Err("down".to_string()), &Ok(vec![scanned("Cafe", 40, "")]), Vec::new());
    match state {
        PageState::On { known, networks } => {
            assert!(known.is_empty());
            assert_eq!(networks.len(), 1);
        }
        _ => panic!("radio on page expected"),
    }
}

#[test]
fn uppercased_label_decides_lock() {
    assert!(!label_secured("open", "OPEN"));
    assert!(!label_secured("", ""));
    assert!(label_secured("wpa2", "WPA2"));
}

#[test]
fn separators_between_rows_only() {
    assert!(separator_after(0, 3));
    assert!(separator_after(1, 3));
    assert!(!separator_after(2, 3));
    assert!(!separator_after(0, 1));
    assert!(!separator_after(0, 0));
}
