use systemsettings::daemon::json::{json_as_bool, json_as_str, JsonValue};
use systemsettings::daemon::reply::{
    applied_fill, classify_reply, forgotten, payload_error, payload_json, radio_fields, reply_result,
};
use systemsettings::daemon::request::{request_frame, Request};
use systemsettings::daemon::{
    state_with_dark_fallback, with_dark_fallback, WallpaperEntry, daemon_available, default_os_codename, default_os_display_name, default_os_name,
    default_os_version, socket_path_from, DateTimeState, DisplayState, LocaleState, OsInfo,
    WallpaperState, DEFAULT_SOCKET_PATH,
};
use systemsettings::daemon::{os_or_default, UNREACHABLE};

/// The parsed result of a success frame carrying `json`.
fn value(json: &str) -> Result<JsonValue, String> {
    reply_result(&format!("{{\"id\":1,\"ok\":true,\"result\":{}}}", json)).map(|r| r.value)
}

#[test]
fn socket_override_wins_over_default() {
    assert_eq!(socket_path_from(Some("/tmp/custom-settings-test.sock")), "/tmp/custom-settings-test.sock");
    assert_eq!(socket_path_from(None), DEFAULT_SOCKET_PATH);
    assert_eq!(DEFAULT_SOCKET_PATH, "/run/tontoo-settings.sock");
    assert!(!daemon_available(Some("/nonexistent-systemsettings-test.sock")));
}

#[test]
fn frames_are_compact_json_lines() {
    assert_eq!(request_frame(&Request::WifiList), "{\"id\":1,\"op\":\"wifi_list\",\"params\":{}}\n");
    assert_eq!(
        request_frame(&Request::WifiConnect {
            ssid: "HomeNet".to_string(),
            password: None,
            hidden: false,
        }),
        "{\"id\":1,\"op\":\"wifi_connect\",\"params\":{\"hidden\":false,\"password\":null,\"ssid\":\"HomeNet\"}}\n"
    );
    assert_eq!(
        request_frame(&Request::WifiConnect {
            ssid: "Caf\u{e9} \"5G\"".to_string(),
            password: Some("p\\w\n".to_string()),
            hidden: true,
        }),
        "{\"id\":1,\"op\":\"wifi_connect\",\"params\":{\"hidden\":true,\"password\":\"p\\\\w\\n\",\"ssid\":\"Caf\u{e9} \\\"5G\\\"\"}}\n"
    );
    assert_eq!(
        request_frame(&Request::set_enabled(false)),
        "{\"id\":1,\"op\":\"wifi_disable\",\"params\":{}}\n"
    );
    assert_eq!(
        request_frame(&Request::LocaleSetKeymap { layout: "de".to_string(), variant: None }),
        "{\"id\":1,\"op\":\"locale_set_keymap\",\"params\":{\"layout\":\"de\",\"variant\":null}}\n"
    );
    assert_eq!(
        request_frame(&Request::WallpaperApply {
            kind: "premade".to_string(),
            id: "SONOMA".to_string(),
            variant: "auto".to_string(),
        }),
        "{\"id\":1,\"op\":\"wallpaper_apply\",\"params\":{\"id\":\"SONOMA\",\"kind\":\"premade\",\"variant\":\"auto\"}}\n"
    );
    assert_eq!(
        request_frame(&Request::DisplaySet {
            output: Some("HDMI-1".to_string()),
            width: None,
            height: None,
            refresh: Some(5000),
            brightness: Some("0.7".to_string()),
            night_light: Some(true),
        }),
        "{\"id\":1,\"op\":\"display_set\",\"params\":{\"brightness\":0.7,\"height\":null,\"night_light\":true,\"output\":\"HDMI-1\",\"refresh\":5000,\"width\":null}}\n"
    );
    assert_eq!(
        request_frame(&Request::DatetimeSet24h { use_24h: true }),
        "{\"id\":1,\"op\":\"datetime_set_24h\",\"params\":{\"use_24h\":true}}\n"
    );
}

fn object(members: &[(&str, serde_json::Value)]) -> serde_json::Value {
    let mut map = serde_json::Map::new();
    for (key, value) in members {
        map.insert(key.to_string(), value.clone());
    }
    serde_json::Value::Object(map)
}

#[test]
fn frames_match_serde_json_output() {
    let text = |s: &str| serde_json::Value::String(s.to_string());
    let requests = vec![
        (
            Request::DnsSet { servers: "1.1.1.1, 8.8.8.8".to_string() },
            "dns_set",
            object(&[("servers", text("1.1.1.1, 8.8.8.8"))]),
        ),
        (
            Request::WallpaperAdd { path: "/tmp/\u{1}photo.png".to_string(), name: Some("Photo".to_string()) },
            "wallpaper_add",
            object(&[("path", text("/tmp/\u{1}photo.png")), ("name", text("Photo"))]),
        ),
        (
            Request::LocaleKeymapVariants { layout: "de".to_string() },
            "locale_keymap_variants",
            object(&[("layout", text("de"))]),
        ),
        (
            Request::WifiForget { ssid: "Caf\u{e9}\u{7f}".to_string() },
            "wifi_forget",
            object(&[("ssid", text("Caf\u{e9}\u{7f}"))]),
        ),
    ];
    for (request, op, params) in requests {
        let frame = object(&[
            ("id", serde_json::Value::from(1)),
            ("op", text(op)),
            ("params", params),
        ]);
        let mut expected = frame.to_string();
        expected.push('\n');
        assert_eq!(request_frame(&request), expected);
    }
}

#[test]
fn quoting_escapes_controls() {
    assert_eq!(
        request_frame(&Request::WifiForget { ssid: "a\"b\\c\u{1}\t".to_string() }),
        "{\"id\":1,\"op\":\"wifi_forget\",\"params\":{\"ssid\":\"a\\\"b\\\\c\\u0001\\t\"}}\n"
    );
    assert_eq!(
        request_frame(&Request::WifiForget { ssid: String::new() }),
        "{\"id\":1,\"op\":\"wifi_forget\",\"params\":{\"ssid\":\"\"}}\n"
    );
}

#[test]
fn success_replies_give_their_result() {
    let r = reply_result("{\"id\":1,\"ok\":true,\"result\":{\"enabled\":true,\"available\":false}}\n").unwrap();
    assert_eq!(r.json, "{\"available\":false,\"enabled\":true}");
    let (enabled, available, status) = radio_fields(&r.value);
    assert!(enabled);
    assert!(!available);
    assert_eq!(status, "null");
    let r = reply_result("{\"id\":1,\"ok\":true}").unwrap();
    assert_eq!(r.json, "null");
    assert!(matches!(r.value, JsonValue::Null));
}

#[test]
fn error_replies_surface_the_daemon_message() {
    let e = reply_result("{\"id\":1,\"ok\":false,\"error\":\"wifi connect failed: nope\"}").unwrap_err();
    assert_eq!(e, "wifi connect failed: nope");
    assert_eq!(reply_result("{\"id\":1,\"ok\":false}").unwrap_err(), "daemon error");
    assert_eq!(reply_result("{\"id\":1,\"error\":7}").unwrap_err(), "daemon error");
    assert_eq!(reply_result("{\"id\":1,\"ok\":\"yes\",\"result\":1}").unwrap_err(), "daemon error");
    let e = reply_result("not json").unwrap_err();
    assert!(e.starts_with("daemon reply invalid: "));
}

#[test]
fn classify_reads_ok_flag() {
    let v = value("{\"ok\":true,\"result\":[1,2]}").unwrap();
    assert_eq!(classify_reply(&v), Ok("[1,2]".to_string()));
    let v = value("[true]").unwrap();
    assert_eq!(classify_reply(&v), Err("daemon error".to_string()));
}

#[test]
fn radio_fields_default_when_missing() {
    let v = value("{\"status\":{\"interface\":\"wlan0\"}}").unwrap();
    let (enabled, available, status) = radio_fields(&v);
    assert!(!enabled);
    assert!(available);
    assert_eq!(status, "{\"interface\":\"wlan0\"}");
}

#[test]
fn forget_and_fill_results() {
    assert!(forgotten(&value("{\"forgotten\":true}").unwrap()));
    assert!(!forgotten(&value("{}").unwrap()));
    assert_eq!(applied_fill(&value("{\"fill\":\"center\"}").unwrap()), Ok("center".to_string()));
    assert_eq!(
        applied_fill(&value("{\"fill\":3}").unwrap()),
        Err("wallpaper set invalid: missing fill".to_string())
    );
}

#[test]
fn payloads_come_from_their_member() {
    let r = reply_result("{\"ok\":true,\"result\":{\"networks\":[{\"ssid\":\"HomeNet\"}]}}").unwrap();
    assert_eq!(payload_json(&Request::WifiList, &r), "[{\"ssid\":\"HomeNet\"}]");
    assert_eq!(payload_json(&Request::GetOs, &r), "null");
    assert_eq!(payload_json(&Request::DnsGet, &r), "{\"networks\":[{\"ssid\":\"HomeNet\"}]}");
    assert_eq!(payload_error(&Request::GetOs, "bad"), "os info invalid: bad");
    assert_eq!(
        payload_error(&Request::DatetimeSetTimezone { timezone: "UTC".to_string() }, "x"),
        "datetime set invalid: x"
    );
}

#[test]
fn json_scalars_read_back() {
    assert_eq!(json_as_bool("true"), Some(true));
    assert_eq!(json_as_bool("\"true\""), None);
    assert_eq!(json_as_str("\"a\\nb\""), Some("a\nb".to_string()));
    assert_eq!(json_as_str("1"), None);
}

#[test]
fn defaults_match_the_pages_fallbacks() {
    let os = OsInfo::default();
    assert_eq!(os.name, "TontooOS");
    assert_eq!(os.display_name, "TontooOS");
    assert_eq!(os.codename, "Seal");
    assert_eq!(os.version, "26.1.0");
    assert!(!os.beta);
    assert_eq!(default_os_name(), "TontooOS");
    assert_eq!(default_os_display_name(), "TontooOS");
    assert_eq!(default_os_codename(), "Seal");
    assert_eq!(default_os_version(), "26.1.0");
    let dt = DateTimeState::default();
    assert!(dt.ntp);
    assert_eq!(dt.timezone, "UTC");
    assert!(!dt.use_24h);
    assert_eq!(dt.timezones, vec!["UTC".to_string()]);
    let locale = LocaleState::default();
    assert_eq!(locale.language, "en");
    assert_eq!(locale.region, "US");
    assert!(locale.auto_keymap);
    assert_eq!(locale.languages.len(), 2);
    assert_eq!(locale.languages[1].name, "Deutsch");
    let wp = WallpaperState::default();
    assert_eq!(wp.fill, "fill");
    assert!(wp.current.is_none());
    let display = DisplayState::default();
    assert!(display.outputs.is_empty());
    assert_eq!(display.brightness, 100);
    assert!(!display.night_light);
}

#[test]
fn every_frame_is_one_line() {
    let requests = vec![
        Request::WifiConnect { ssid: "a\nb".to_string(), password: Some("\n\r".to_string()), hidden: false },
        Request::DnsSet { servers: "1.1.1.1\n8.8.8.8".to_string() },
        Request::WallpaperAdd { path: "/tmp/x\n.png".to_string(), name: None },
        Request::DisplaySet {
            output: Some("HDMI\n1".to_string()),
            width: Some(-1),
            height: Some(1080),
            refresh: Some(60),
            brightness: Some("55.5".to_string()),
            night_light: None,
        },
        Request::GetOs,
    ];
    for request in &requests {
        let frame = request_frame(request);
        assert!(frame.ends_with('\n'));
        assert_eq!(frame.matches('\n').count(), 1);
    }
}

#[test]
fn unreachable_daemon_shows_compiled_identity() {
    let shown = os_or_default(Err(format!("{}: connection refused", UNREACHABLE))).unwrap();
    assert_eq!(shown.version, "26.1.0");
    assert_eq!(shown.codename, "Seal");
    assert_eq!(os_or_default(Err("os info invalid: x".to_string())).unwrap_err(), "os info invalid: x");
    let mut os = OsInfo::default();
    os.version = "27.0.0".to_string();
    assert_eq!(os_or_default(Ok(os)).unwrap().version, "27.0.0");
}

#[test]
fn missing_dark_variant_mirrors_light_file() {
    let entry = |dark: &str| WallpaperEntry {
        kind: "custom".to_string(),
        id: "mine".to_string(),
        name: "Mine".to_string(),
        path: "/tmp/mine.png".to_string(),
        path_dark: dark.to_string(),
    };
    assert_eq!(with_dark_fallback(entry("")).path_dark, "/tmp/mine.png");
    assert_eq!(with_dark_fallback(entry("/tmp/dark.png")).path_dark, "/tmp/dark.png");
    let state = WallpaperState {
        current: Some(entry("")),
        fill: "tile".to_string(),
        customs: vec![entry(""), entry("/d.png")],
        premade: vec![entry("")],
    };
    let filled = state_with_dark_fallback(state);
    assert_eq!(filled.fill, "tile");
    assert_eq!(filled.current.unwrap().path_dark, "/tmp/mine.png");
    assert_eq!(filled.customs[0].path_dark, "/tmp/mine.png");
    assert_eq!(filled.customs[1].path_dark, "/d.png");
    assert_eq!(filled.premade[0].path_dark, "/tmp/mine.png");
}
