//! State the settings daemon reports, with the defaults the pages fall
//! back to, and the socket the daemon is reached through.

use vstd::prelude::*;

pub mod json;
pub mod reply;
pub mod request;

verus! {

/// Default daemon socket path.
pub const DEFAULT_SOCKET_PATH: &'static str = "/run/tontoo-settings.sock";

/// One nearby network as reported by `wifi_list`.
#[derive(Debug, Clone)]
pub struct WifiNetwork {
    pub ssid: String,
    pub bssid: Option<String>,
    pub signal_pct: i32,
    pub frequency_mhz: Option<u32>,
    pub security: String,
    pub known: bool,
}

/// Active connection details as reported by `wifi_status`.
#[derive(Debug, Clone)]
pub struct WifiStatus {
    pub interface: String,
    pub ssid: Option<String>,
    pub bssid: Option<String>,
    pub signal_pct: i32,
    pub frequency_mhz: Option<u32>,
    pub security: String,
    pub state: String,
    pub ipv4: Option<String>,
}

/// Radio state plus the active connection (`wifi_status`).
#[derive(Debug, Clone)]
pub struct WifiState {
    pub enabled: bool,
    pub available: bool,
    pub current: Option<WifiStatus>,
}

/// One stored known network (`wifi_known_list`, no passwords).
#[derive(Debug, Clone)]
pub struct KnownNetwork {
    pub ssid: String,
    pub security: String,
    pub last_connected: i64,
    pub auto_join: bool,
}

/// Effective DNS state behind `dns_get`. Empty `servers` with
/// `manual == false` means DHCP (automatic).
#[derive(Debug, Clone, PartialEq, Eq)]
pub struct DnsState {
    pub servers: Vec<String>,
    pub manual: bool,
}

/// One connected wired interface with details (`wired_list`).
#[derive(Debug, Clone, PartialEq, Eq)]
pub struct WiredInfo {
    pub interface: String,
    pub connection: String,
    pub state: String,
    pub ipv4_addrs: Vec<String>,
    pub gateway: Option<String>,
    pub speed_mbps: Option<u32>,
    pub mtu: Option<u32>,
    pub driver: Option<String>,
    pub mac: String,
}

/// Effective date & time state behind `datetime_get`.
#[derive(Debug, Clone, PartialEq, Eq)]
pub struct DateTimeState {
    pub ntp: bool,
    pub timezone: String,
    pub use_24h: bool,
    pub timezones: Vec<String>,
}

impl Default for DateTimeState {
    /// NTP on, UTC, 12-hour clock, only UTC offered.
    fn default() -> (s: Self)
        ensures
            s.ntp,
            s.timezone@ == "UTC"@,
            !s.use_24h,
            s.timezones@.len() == 1,
            s.timezones@[0]@ == "UTC"@,
    {
        let mut timezones = Vec::new();
        timezones.push("UTC".to_string());
        DateTimeState { ntp: true, timezone: "UTC".to_string(), use_24h: false, timezones }
    }
}

/// One language option (`locale_get`).
#[derive(Debug, Clone, PartialEq, Eq)]
pub struct LanguageEntry {
    pub code: String,
    pub name: String,
}

/// One region option (`locale_get`).
#[derive(Debug, Clone, PartialEq, Eq)]
pub struct RegionEntry {
    pub code: String,
    pub name: String,
}

/// Effective language & region state behind `locale_get`.
#[derive(Debug, Clone, PartialEq, Eq)]
pub struct LocaleState {
    pub language: String,
    pub region: String,
    pub keymap: String,
    pub keymap_variant: Option<String>,
    pub auto_keymap: bool,
    pub languages: Vec<LanguageEntry>,
    pub regions: Vec<RegionEntry>,
    pub keymaps: Vec<String>,
}

impl Default for LocaleState {
    /// English, US region, no keymap, auto-detect on, English and German
    /// offered, no regions or keymaps listed.
    fn default() -> (s: Self)
        ensures
            s.language@ == "en"@,
            s.region@ == "US"@,
            s.keymap@.len() == 0,
            s.keymap_variant is None,
            s.auto_keymap,
            s.languages@.len() == 2,
            s.languages@[0].code@ == "en"@,
            s.languages@[0].name@ == "English"@,
            s.languages@[1].code@ == "de"@,
            s.languages@[1].name@ == "Deutsch"@,
            s.regions@.len() == 0,
            s.keymaps@.len() == 0,
    {
        let mut languages = Vec::new();
        languages.push(LanguageEntry { code: "en".to_string(), name: "English".to_string() });
        languages.push(LanguageEntry { code: "de".to_string(), name: "Deutsch".to_string() });
        LocaleState {
            language: "en".to_string(),
            region: "US".to_string(),
            keymap: String::new(),
            keymap_variant: None,
            auto_keymap: true,
            languages,
            regions: Vec::new(),
            keymaps: Vec::new(),
        }
    }
}

/// One listed wallpaper: a premade pack or a user custom file.
/// `path_dark` mirrors `path` when no dark variant exists (see
/// `with_dark_fallback`).
#[derive(Debug, Clone, PartialEq, Eq)]
pub struct WallpaperEntry {
    pub kind: String,
    pub id: String,
    pub name: String,
    pub path: String,
    pub path_dark: String,
}

/// Full wallpaper state behind `wallpaper_get`.
#[derive(Debug, Clone, PartialEq, Eq)]
pub struct WallpaperState {
    pub current: Option<WallpaperEntry>,
    pub fill: String,
    pub customs: Vec<WallpaperEntry>,
    pub premade: Vec<WallpaperEntry>,
}

impl Default for WallpaperState {
    /// No current wallpaper, `fill` mode, no wallpapers listed.
    fn default() -> (s: Self)
        ensures
            s.current is None,
            s.fill@ == "fill"@,
            s.customs@.len() == 0,
            s.premade@.len() == 0,
    {
        WallpaperState {
            current: None,
            fill: "fill".to_string(),
            customs: Vec::new(),
            premade: Vec::new(),
        }
    }
}

/// OS identity facts behind `get_os`.
#[derive(Debug, Clone, PartialEq, Eq)]
pub struct OsInfo {
    pub name: String,
    pub display_name: String,
    pub codename: String,
    pub version: String,
    pub beta: bool,
}

/// OS name used when the daemon leaves it out.
pub fn default_os_name() -> (s: String)
    ensures
        s@ == "TontooOS"@,
{
    "TontooOS".to_string()
}

/// OS display name used when the daemon leaves it out.
pub fn default_os_display_name() -> (s: String)
    ensures
        s@ == "TontooOS"@,
{
    "TontooOS".to_string()
}

/// OS codename used when the daemon leaves it out.
pub fn default_os_codename() -> (s: String)
    ensures
        s@ == "Seal"@,
{
    "Seal".to_string()
}

/// OS version used when the daemon leaves it out.
pub fn default_os_version() -> (s: String)
    ensures
        s@ == "26.1.0"@,
{
    "26.1.0".to_string()
}

impl Default for OsInfo {
    /// The compiled-in identity: TontooOS 26.1.0 "Seal", not a beta.
    fn default() -> (s: Self)
        ensures
            s.name@ == "TontooOS"@,
            s.display_name@ == "TontooOS"@,
            s.codename@ == "Seal"@,
            s.version@ == "26.1.0"@,
            !s.beta,
    {
        OsInfo {
            name: default_os_name(),
            display_name: default_os_display_name(),
            codename: default_os_codename(),
            version: default_os_version(),
            beta: false,
        }
    }
}

/// One output mode: resolution plus refresh rate in Hz.
#[derive(Debug, Clone, Copy, PartialEq, Eq)]
pub struct DisplayMode {
    pub width: i32,
    pub height: i32,
    pub refresh: u32,
}

/// One output with its modes and live current mode.
#[derive(Debug, Clone, PartialEq, Eq)]
pub struct DisplayOutput {
    pub name: String,
    pub modes: Vec<DisplayMode>,
    pub current: Option<DisplayMode>,
}

/// Effective display state behind `display_get`.
#[derive(Debug, Clone, PartialEq)]
pub struct DisplayState {
    pub outputs: Vec<DisplayOutput>,
    pub brightness: u32,
    pub night_light: bool,
}

impl Default for DisplayState {
    /// No outputs, full brightness, night light off.
    fn default() -> (s: Self)
        ensures
            s.outputs@.len() == 0,
            s.brightness == 100,
            !s.night_light,
    {
        DisplayState { outputs: Vec::new(), brightness: 100, night_light: false }
    }
}

/// True when a file system entry exists at `path` (`Path::exists`).
/// The answer depends on the disk at the time of the call, so nothing is
/// promised about it.
#[verifier::external_body]
fn path_exists(path: &str) -> bool {
    std::path::Path::new(path).exists()
}

/// Socket path: the `SETTINGS_SOCKET` override when the variable is set
/// (whatever its value), else the default path.
pub fn socket_path_from(socket_override: Option<&str>) -> (path: String)
    ensures
        path@ == (match socket_override {
            Some(p) => p@,
            None => DEFAULT_SOCKET_PATH@,
        }),
{
    match socket_override {
        Some(p) => p.to_string(),
        None => DEFAULT_SOCKET_PATH.to_string(),
    }
}

/// True when the daemon socket file exists. `socket_override` is the value
/// of the `SETTINGS_SOCKET` environment variable, if set. Whether the file
/// exists is up to the disk: the path probed is `socket_path_from`'s.
pub fn daemon_available(socket_override: Option<&str>) -> bool {
    let path = socket_path_from(socket_override);
    path_exists(path.as_str())
}

/// How every error of a daemon that cannot be reached begins.
pub const UNREACHABLE: &'static str = "settings daemon unreachable";

/// The OS identity shown: the daemon's answer, or the compiled-in
/// identity when the daemon cannot be reached; other errors stay.
pub fn os_or_default(outcome: Result<OsInfo, String>) -> (shown: Result<OsInfo, String>)
    ensures
        match outcome {
            Err(e) => if crate::text::starts_with(e@, UNREACHABLE@) {
                shown matches Ok(os) && os.name@ == "TontooOS"@ && os.display_name@ == "TontooOS"@
                    && os.codename@ == "Seal"@ && os.version@ == "26.1.0"@ && !os.beta
            } else {
                shown == Err::<OsInfo, String>(e)
            },
            Ok(os) => shown == Ok::<OsInfo, String>(os),
        },
{
    match outcome {
        Err(e) => if crate::text::has_prefix(e.as_str(), UNREACHABLE) {
            Ok(OsInfo::default())
        } else {
            Err(e)
        },
        Ok(os) => Ok(os),
    }
}

/// `r` is `e` with an empty `path_dark` replaced by `path`.
pub open spec fn dark_filled(r: WallpaperEntry, e: WallpaperEntry) -> bool {
    &&& r.kind == e.kind
    &&& r.id == e.id
    &&& r.name == e.name
    &&& r.path == e.path
    &&& r.path_dark@ == (if e.path_dark@.len() == 0 {
        e.path@
    } else {
        e.path_dark@
    })
}

/// A listed wallpaper with its dark file filled in: the light file when
/// the listing has no dark variant.
pub fn with_dark_fallback(e: WallpaperEntry) -> (r: WallpaperEntry)
    ensures
        dark_filled(r, e),
{
    let mut r = e;
    if r.path_dark.as_str().is_empty() {
        r.path_dark = r.path.clone();
    }
    r
}

fn entries_with_dark_fallback(entries: Vec<WallpaperEntry>) -> (r: Vec<WallpaperEntry>)
    ensures
        r@.len() == entries@.len(),
        forall|i: int| 0 <= i < r@.len() ==> dark_filled(#[trigger] r@[i], entries@[i]),
{
    let mut rest = entries;
    let mut out: Vec<WallpaperEntry> = Vec::new();
    let ghost all = rest@;
    while rest.len() > 0
        invariant
            out@.len() + rest@.len() == all.len(),
            rest@ == all.skip(out@.len() as int),
            forall|i: int| 0 <= i < out@.len() ==> dark_filled(#[trigger] out@[i], all[i]),
        decreases rest@.len(),
    {
        let ghost k = out@.len() as int;
        assert(rest@[0] == all[k]);
        let e = rest.remove(0);
        assert(rest@ =~= all.skip(k + 1));
        out.push(with_dark_fallback(e));
    }
    out
}

/// A wallpaper state with every listed wallpaper's dark file filled in.
pub fn state_with_dark_fallback(state: WallpaperState) -> (r: WallpaperState)
    ensures
        r.fill == state.fill,
        match state.current {
            Some(e) => r.current matches Some(c) && dark_filled(c, e),
            None => r.current is None,
        },
        r.customs@.len() == state.customs@.len(),
        forall|i: int| 0 <= i < r.customs@.len() ==> dark_filled(#[trigger] r.customs@[i], state.customs@[i]),
        r.premade@.len() == state.premade@.len(),
        forall|i: int| 0 <= i < r.premade@.len() ==> dark_filled(#[trigger] r.premade@[i], state.premade@[i]),
{
    let WallpaperState { current, fill, customs, premade } = state;
    let current = match current {
        Some(e) => Some(with_dark_fallback(e)),
        None => None,
    };
    WallpaperState {
        current,
        fill,
        customs: entries_with_dark_fallback(customs),
        premade: entries_with_dark_fallback(premade),
    }
}

} // verus!
