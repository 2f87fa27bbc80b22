//! Request frames of the settings daemon protocol: one line of JSON,
//! `{"id":1,"op":...,"params":{...}}`, written the way `serde_json` writes
//! such an object (members in key order, no spaces) plus a newline.

use vstd::prelude::*;
use crate::daemon::json::{json_escape, json_escape_char, json_quote, json_string};
use crate::text::{
    decimal, digit_char, hex_digit, push_decimal, push_signed_decimal, push_str, signed_decimal,
};

verus! {

/// One operation of the daemon with its parameters.
#[derive(Debug, Clone)]
pub enum Request {
    /// Nearby networks with the known flag (public).
    WifiList,
    /// Radio state plus the active connection (public).
    WifiStatus,
    /// Stored known networks, most recently connected first (public).
    WifiKnownList,
    /// Connect to a network; open networks take no password.
    WifiConnect { ssid: String, password: Option<String>, hidden: bool },
    /// Disconnect the wireless interface.
    WifiDisconnect,
    /// Switch the WLAN radio on.
    WifiEnable,
    /// Switch the WLAN radio off.
    WifiDisable,
    /// Forget a known network.
    WifiForget { ssid: String },
    /// Read the effective DNS state (public).
    DnsGet,
    /// Apply DNS servers (comma/whitespace separated IPv4, empty is DHCP).
    DnsSet { servers: String },
    /// Connected Ethernet interfaces (public).
    WiredList,
    /// NTP state, timezone, 24h preference and zone list (public).
    DatetimeGet,
    /// Apply a timezone.
    DatetimeSetTimezone { timezone: String },
    /// Persist the 24-hour preference.
    DatetimeSet24h { use_24h: bool },
    /// Language, region, keyboard and option lists (public).
    LocaleGet,
    /// Set the system language.
    LocaleSetLanguage { language: String },
    /// Set the region formats.
    LocaleSetRegion { region: String },
    /// Set the keyboard layout; no variant means the default one.
    LocaleSetKeymap { layout: String, variant: Option<String> },
    /// Switch keyboard auto-detect.
    LocaleSetAutoKeymap { auto: bool },
    /// Variants of one keyboard layout (public).
    LocaleKeymapVariants { layout: String },
    /// Full wallpaper state (public).
    WallpaperGet,
    /// Persist the current wallpaper selection.
    WallpaperSetCurrent { kind: String, id: String },
    /// Persist the fill mode.
    WallpaperSetFill { fill: String },
    /// Upload an image file to the user customs.
    WallpaperAdd { path: String, name: Option<String> },
    /// Apply a wallpaper (`light`, `dark` or `auto` variant) to the desktop.
    WallpaperApply { kind: String, id: String, variant: String },
    /// OS identity (public).
    GetOs,
    /// Effective display state (public).
    DisplayGet,
    /// Apply partial display settings; `None` leaves a field untouched.
    /// `brightness` is the brightness already written as a JSON number.
    DisplaySet {
        output: Option<String>,
        width: Option<i32>,
        height: Option<i32>,
        refresh: Option<u32>,
        brightness: Option<String>,
        night_light: Option<bool>,
    },
}

/// Operation name on the wire.
pub open spec fn op_name(r: Request) -> Seq<char> {
    match r {
        Request::WifiList => "wifi_list"@,
        Request::WifiStatus => "wifi_status"@,
        Request::WifiKnownList => "wifi_known_list"@,
        Request::WifiConnect { .. } => "wifi_connect"@,
        Request::WifiDisconnect => "wifi_disconnect"@,
        Request::WifiEnable => "wifi_enable"@,
        Request::WifiDisable => "wifi_disable"@,
        Request::WifiForget { .. } => "wifi_forget"@,
        Request::DnsGet => "dns_get"@,
        Request::DnsSet { .. } => "dns_set"@,
        Request::WiredList => "wired_list"@,
        Request::DatetimeGet => "datetime_get"@,
        Request::DatetimeSetTimezone { .. } => "datetime_set_timezone"@,
        Request::DatetimeSet24h { .. } => "datetime_set_24h"@,
        Request::LocaleGet => "locale_get"@,
        Request::LocaleSetLanguage { .. } => "locale_set_language"@,
        Request::LocaleSetRegion { .. } => "locale_set_region"@,
        Request::LocaleSetKeymap { .. } => "locale_set_keymap"@,
        Request::LocaleSetAutoKeymap { .. } => "locale_set_auto_keymap"@,
        Request::LocaleKeymapVariants { .. } => "locale_keymap_variants"@,
        Request::WallpaperGet => "wallpaper_get"@,
        Request::WallpaperSetCurrent { .. } => "wallpaper_set_current"@,
        Request::WallpaperSetFill { .. } => "wallpaper_set_fill"@,
        Request::WallpaperAdd { .. } => "wallpaper_add"@,
        Request::WallpaperApply { .. } => "wallpaper_apply"@,
        Request::GetOs => "get_os"@,
        Request::DisplayGet => "display_get"@,
        Request::DisplaySet { .. } => "display_set"@,
    }
}

pub open spec fn bool_json(b: bool) -> Seq<char> {
    if b {
        "true"@
    } else {
        "false"@
    }
}

pub open spec fn opt_str_json(o: Option<String>) -> Seq<char> {
    match o {
        Some(s) => json_string(s@),
        None => "null"@,
    }
}

pub open spec fn opt_int_json(o: Option<i32>) -> Seq<char> {
    match o {
        Some(n) => signed_decimal(n as int),
        None => "null"@,
    }
}

pub open spec fn opt_uint_json(o: Option<u32>) -> Seq<char> {
    match o {
        Some(n) => decimal(n as nat),
        None => "null"@,
    }
}

pub open spec fn opt_bool_json(o: Option<bool>) -> Seq<char> {
    match o {
        Some(b) => bool_json(b),
        None => "null"@,
    }
}

pub open spec fn opt_raw_json(o: Option<String>) -> Seq<char> {
    match o {
        Some(t) => t@,
        None => "null"@,
    }
}

/// The `params` object of a request, members in key order.
pub open spec fn params_json(r: Request) -> Seq<char> {
    match r {
        Request::WifiConnect { ssid, password, hidden } => "{\"hidden\":"@ + bool_json(hidden)
            + ",\"password\":"@ + opt_str_json(password) + ",\"ssid\":"@ + json_string(ssid@)
            + "}"@,
        Request::WifiForget { ssid } => "{\"ssid\":"@ + json_string(ssid@) + "}"@,
        Request::DnsSet { servers } => "{\"servers\":"@ + json_string(servers@) + "}"@,
        Request::DatetimeSetTimezone { timezone } => "{\"timezone\":"@ + json_string(timezone@)
            + "}"@,
        Request::DatetimeSet24h { use_24h } => "{\"use_24h\":"@ + bool_json(use_24h) + "}"@,
        Request::LocaleSetLanguage { language } => "{\"language\":"@ + json_string(language@)
            + "}"@,
        Request::LocaleSetRegion { region } => "{\"region\":"@ + json_string(region@) + "}"@,
        Request::LocaleSetKeymap { layout, variant } => "{\"layout\":"@ + json_string(layout@)
            + ",\"variant\":"@ + opt_str_json(variant) + "}"@,
        Request::LocaleSetAutoKeymap { auto } => "{\"auto\":"@ + bool_json(auto) + "}"@,
        Request::LocaleKeymapVariants { layout } => "{\"layout\":"@ + json_string(layout@) + "}"@,
        Request::WallpaperSetCurrent { kind, id } => "{\"id\":"@ + json_string(id@)
            + ",\"kind\":"@ + json_string(kind@) + "}"@,
        Request::WallpaperSetFill { fill } => "{\"fill\":"@ + json_string(fill@) + "}"@,
        Request::WallpaperAdd { path, name } => "{\"name\":"@ + opt_str_json(name) + ",\"path\":"@
            + json_string(path@) + "}"@,
        Request::WallpaperApply { kind, id, variant } => "{\"id\":"@ + json_string(id@)
            + ",\"kind\":"@ + json_string(kind@) + ",\"variant\":"@ + json_string(variant@)
            + "}"@,
        Request::DisplaySet { output, width, height, refresh, brightness, night_light } =>
            "{\"brightness\":"@ + opt_raw_json(brightness) + ",\"height\":"@ + opt_int_json(height)
            + ",\"night_light\":"@ + opt_bool_json(night_light) + ",\"output\":"@ + opt_str_json(
            output) + ",\"refresh\":"@ + opt_uint_json(refresh) + ",\"width\":"@ + opt_int_json(
            width) + "}"@,
        _ => "{}"@,
    }
}

/// The whole request line.
pub open spec fn frame_json(r: Request) -> Seq<char> {
    "{\"id\":1,\"op\":"@ + json_string(op_name(r)) + ",\"params\":"@ + params_json(r) + "}\n"@
}

fn push_bool(out: &mut String, b: bool)
    ensures
        final(out)@ == old(out)@ + bool_json(b),
{
    if b {
        push_str(out, "true");
    } else {
        push_str(out, "false");
    }
}

fn push_quoted(out: &mut String, s: &str)
    ensures
        final(out)@ == old(out)@ + json_string(s@),
{
    let q = json_quote(s);
    push_str(out, q.as_str());
}

fn push_opt_str(out: &mut String, o: &Option<String>)
    ensures
        final(out)@ == old(out)@ + opt_str_json(*o),
{
    match o {
        Some(s) => push_quoted(out, s.as_str()),
        None => push_str(out, "null"),
    }
}

fn push_opt_int(out: &mut String, o: Option<i32>)
    ensures
        final(out)@ == old(out)@ + opt_int_json(o),
{
    match o {
        Some(n) => push_signed_decimal(out, n as i64),
        None => push_str(out, "null"),
    }
}

fn push_opt_uint(out: &mut String, o: Option<u32>)
    ensures
        final(out)@ == old(out)@ + opt_uint_json(o),
{
    match o {
        Some(n) => push_decimal(out, n as u64),
        None => push_str(out, "null"),
    }
}

fn push_opt_bool(out: &mut String, o: Option<bool>)
    ensures
        final(out)@ == old(out)@ + opt_bool_json(o),
{
    match o {
        Some(b) => push_bool(out, b),
        None => push_str(out, "null"),
    }
}

fn push_opt_raw(out: &mut String, o: &Option<String>)
    ensures
        final(out)@ == old(out)@ + opt_raw_json(*o),
{
    match o {
        Some(t) => push_str(out, t.as_str()),
        None => push_str(out, "null"),
    }
}

impl Request {
    /// Radio switch request: `wifi_enable` or `wifi_disable`.
    pub fn set_enabled(enabled: bool) -> (r: Request)
        ensures
            r == (if enabled {
                Request::WifiEnable
            } else {
                Request::WifiDisable
            }),
    {
        if enabled {
            Request::WifiEnable
        } else {
            Request::WifiDisable
        }
    }

    /// Operation name on the wire.
    pub fn op(&self) -> (name: &'static str)
        ensures
            name@ == op_name(*self),
    {
        match self {
            Request::WifiList => "wifi_list",
            Request::WifiStatus => "wifi_status",
            Request::WifiKnownList => "wifi_known_list",
            Request::WifiConnect { .. } => "wifi_connect",
            Request::WifiDisconnect => "wifi_disconnect",
            Request::WifiEnable => "wifi_enable",
            Request::WifiDisable => "wifi_disable",
            Request::WifiForget { .. } => "wifi_forget",
            Request::DnsGet => "dns_get",
            Request::DnsSet { .. } => "dns_set",
            Request::WiredList => "wired_list",
            Request::DatetimeGet => "datetime_get",
            Request::DatetimeSetTimezone { .. } => "datetime_set_timezone",
            Request::DatetimeSet24h { .. } => "datetime_set_24h",
            Request::LocaleGet => "locale_get",
            Request::LocaleSetLanguage { .. } => "locale_set_language",
            Request::LocaleSetRegion { .. } => "locale_set_region",
            Request::LocaleSetKeymap { .. } => "locale_set_keymap",
            Request::LocaleSetAutoKeymap { .. } => "locale_set_auto_keymap",
            Request::LocaleKeymapVariants { .. } => "locale_keymap_variants",
            Request::WallpaperGet => "wallpaper_get",
            Request::WallpaperSetCurrent { .. } => "wallpaper_set_current",
            Request::WallpaperSetFill { .. } => "wallpaper_set_fill",
            Request::WallpaperAdd { .. } => "wallpaper_add",
            Request::WallpaperApply { .. } => "wallpaper_apply",
            Request::GetOs => "get_os",
            Request::DisplayGet => "display_get",
            Request::DisplaySet { .. } => "display_set",
        }
    }

    fn push_wifi_connect_params(&self, out: &mut String)
        requires
            *self is WifiConnect,
        ensures
            final(out)@ == old(out)@ + params_json(*self),
    {
        let ghost start = out@;
        match self {
            Request::WifiConnect { ssid, password, hidden } => {
                push_str(out, "{\"hidden\":");
                push_bool(out, *hidden);
                push_str(out, ",\"password\":");
                push_opt_str(out, password);
                push_str(out, ",\"ssid\":");
                push_quoted(out, ssid.as_str());
                push_str(out, "}");
                assert(out@ =~= start + params_json(*self));
            },
            _ => {},
        }
    }

    fn push_wifi_forget_params(&self, out: &mut String)
        requires
            *self is WifiForget,
        ensures
            final(out)@ == old(out)@ + params_json(*self),
    {
        let ghost start = out@;
        match self {
            Request::WifiForget { ssid } => {
                push_str(out, "{\"ssid\":");
                push_quoted(out, ssid.as_str());
                push_str(out, "}");
                assert(out@ =~= start + params_json(*self));
            },
            _ => {},
        }
    }

    fn push_dns_set_params(&self, out: &mut String)
        requires
            *self is DnsSet,
        ensures
            final(out)@ == old(out)@ + params_json(*self),
    {
        let ghost start = out@;
        match self {
            Request::DnsSet { servers } => {
                push_str(out, "{\"servers\":");
                push_quoted(out, servers.as_str());
                push_str(out, "}");
                assert(out@ =~= start + params_json(*self));
            },
            _ => {},
        }
    }

    fn push_datetime_set_timezone_params(&self, out: &mut String)
        requires
            *self is DatetimeSetTimezone,
        ensures
            final(out)@ == old(out)@ + params_json(*self),
    {
        let ghost start = out@;
        match self {
            Request::DatetimeSetTimezone { timezone } => {
                push_str(out, "{\"timezone\":");
                push_quoted(out, timezone.as_str());
                push_str(out, "}");
                assert(out@ =~= start + params_json(*self));
            },
            _ => {},
        }
    }

    fn push_datetime_set24h_params(&self, out: &mut String)
        requires
            *self is DatetimeSet24h,
        ensures
            final(out)@ == old(out)@ + params_json(*self),
    {
        let ghost start = out@;
        match self {
            Request::DatetimeSet24h { use_24h } => {
                push_str(out, "{\"use_24h\":");
                push_bool(out, *use_24h);
                push_str(out, "}");
                assert(out@ =~= start + params_json(*self));
            },
            _ => {},
        }
    }

    fn push_locale_set_language_params(&self, out: &mut String)
        requires
            *self is LocaleSetLanguage,
        ensures
            final(out)@ == old(out)@ + params_json(*self),
    {
        let ghost start = out@;
        match self {
            Request::LocaleSetLanguage { language } => {
                push_str(out, "{\"language\":");
                push_quoted(out, language.as_str());
                push_str(out, "}");
                assert(out@ =~= start + params_json(*self));
            },
            _ => {},
        }
    }

    fn push_locale_set_region_params(&self, out: &mut String)
        requires
            *self is LocaleSetRegion,
        ensures
            final(out)@ == old(out)@ + params_json(*self),
    {
        let ghost start = out@;
        match self {
            Request::LocaleSetRegion { region } => {
                push_str(out, "{\"region\":");
                push_quoted(out, region.as_str());
                push_str(out, "}");
                assert(out@ =~= start + params_json(*self));
            },
            _ => {},
        }
    }

    fn push_locale_set_keymap_params(&self, out: &mut String)
        requires
            *self is LocaleSetKeymap,
        ensures
            final(out)@ == old(out)@ + params_json(*self),
    {
        let ghost start = out@;
        match self {
            Request::LocaleSetKeymap { layout, variant } => {
                push_str(out, "{\"layout\":");
                push_quoted(out, layout.as_str());
                push_str(out, ",\"variant\":");
                push_opt_str(out, variant);
                push_str(out, "}");
                assert(out@ =~= start + params_json(*self));
            },
            _ => {},
        }
    }

    fn push_locale_set_auto_keymap_params(&self, out: &mut String)
        requires
            *self is LocaleSetAutoKeymap,
        ensures
            final(out)@ == old(out)@ + params_json(*self),
    {
        let ghost start = out@;
        match self {
            Request::LocaleSetAutoKeymap { auto } => {
                push_str(out, "{\"auto\":");
                push_bool(out, *auto);
                push_str(out, "}");
                assert(out@ =~= start + params_json(*self));
            },
            _ => {},
        }
    }

    fn push_locale_keymap_variants_params(&self, out: &mut String)
        requires
            *self is LocaleKeymapVariants,
        ensures
            final(out)@ == old(out)@ + params_json(*self),
    {
        let ghost start = out@;
        match self {
            Request::LocaleKeymapVariants { layout } => {
                push_str(out, "{\"layout\":");
                push_quoted(out, layout.as_str());
                push_str(out, "}");
                assert(out@ =~= start + params_json(*self));
            },
            _ => {},
        }
    }

    fn push_wallpaper_set_current_params(&self, out: &mut String)
        requires
            *self is WallpaperSetCurrent,
        ensures
            final(out)@ == old(out)@ + params_json(*self),
    {
        let ghost start = out@;
        match self {
            Request::WallpaperSetCurrent { kind, id } => {
                push_str(out, "{\"id\":");
                push_quoted(out, id.as_str());
                push_str(out, ",\"kind\":");
                push_quoted(out, kind.as_str());
                push_str(out, "}");
                assert(out@ =~= start + params_json(*self));
            },
            _ => {},
        }
    }

    fn push_wallpaper_set_fill_params(&self, out: &mut String)
        requires
            *self is WallpaperSetFill,
        ensures
            final(out)@ == old(out)@ + params_json(*self),
    {
        let ghost start = out@;
        match self {
            Request::WallpaperSetFill { fill } => {
                push_str(out, "{\"fill\":");
                push_quoted(out, fill.as_str());
                push_str(out, "}");
                assert(out@ =~= start + params_json(*self));
            },
            _ => {},
        }
    }

    fn push_wallpaper_add_params(&self, out: &mut String)
        requires
            *self is WallpaperAdd,
        ensures
            final(out)@ == old(out)@ + params_json(*self),
    {
        let ghost start = out@;
        match self {
            Request::WallpaperAdd { path, name } => {
                push_str(out, "{\"name\":");
                push_opt_str(out, name);
                push_str(out, ",\"path\":");
                push_quoted(out, path.as_str());
                push_str(out, "}");
                assert(out@ =~= start + params_json(*self));
            },
            _ => {},
        }
    }

    fn push_wallpaper_apply_params(&self, out: &mut String)
        requires
            *self is WallpaperApply,
        ensures
            final(out)@ == old(out)@ + params_json(*self),
    {
        let ghost start = out@;
        match self {
            Request::WallpaperApply { kind, id, variant } => {
                push_str(out, "{\"id\":");
                push_quoted(out, id.as_str());
                push_str(out, ",\"kind\":");
                push_quoted(out, kind.as_str());
                push_str(out, ",\"variant\":");
                push_quoted(out, variant.as_str());
                push_str(out, "}");
                assert(out@ =~= start + params_json(*self));
            },
            _ => {},
        }
    }

    fn push_display_set_params(&self, out: &mut String)
        requires
            *self is DisplaySet,
        ensures
            final(out)@ == old(out)@ + params_json(*self),
    {
        let ghost start = out@;
        match self {
            Request::DisplaySet { output, width, height, refresh, brightness, night_light } => {
                push_str(out, "{\"brightness\":");
                push_opt_raw(out, brightness);
                push_str(out, ",\"height\":");
                push_opt_int(out, *height);
                push_str(out, ",\"night_light\":");
                push_opt_bool(out, *night_light);
                push_str(out, ",\"output\":");
                push_opt_str(out, output);
                push_str(out, ",\"refresh\":");
                push_opt_uint(out, *refresh);
                push_str(out, ",\"width\":");
                push_opt_int(out, *width);
                push_str(out, "}");
                assert(out@ =~= start + params_json(*self));
            },
            _ => {},
        }
    }

    fn push_params(&self, out: &mut String)
        ensures
            final(out)@ == old(out)@ + params_json(*self),
    {
        let ghost start = out@;
        match self {
            Request::WifiConnect { .. } => self.push_wifi_connect_params(out),
            Request::WifiForget { .. } => self.push_wifi_forget_params(out),
            Request::DnsSet { .. } => self.push_dns_set_params(out),
            Request::DatetimeSetTimezone { .. } => self.push_datetime_set_timezone_params(out),
            Request::DatetimeSet24h { .. } => self.push_datetime_set24h_params(out),
            Request::LocaleSetLanguage { .. } => self.push_locale_set_language_params(out),
            Request::LocaleSetRegion { .. } => self.push_locale_set_region_params(out),
            Request::LocaleSetKeymap { .. } => self.push_locale_set_keymap_params(out),
            Request::LocaleSetAutoKeymap { .. } => self.push_locale_set_auto_keymap_params(out),
            Request::LocaleKeymapVariants { .. } => self.push_locale_keymap_variants_params(out),
            Request::WallpaperSetCurrent { .. } => self.push_wallpaper_set_current_params(out),
            Request::WallpaperSetFill { .. } => self.push_wallpaper_set_fill_params(out),
            Request::WallpaperAdd { .. } => self.push_wallpaper_add_params(out),
            Request::WallpaperApply { .. } => self.push_wallpaper_apply_params(out),
            Request::DisplaySet { .. } => self.push_display_set_params(out),
            _ => {
                push_str(out, "{}");
                assert(out@ =~= start + params_json(*self));
            },
        }
    }
}

/// The request line for an operation: the JSON object
/// `{"id":1,"op":<name>,"params":<params>}` followed by a newline.
pub fn request_frame(request: &Request) -> (line: String)
    ensures
        line@ == frame_json(*request),
{
    let mut line = String::new();
    push_str(&mut line, "{\"id\":1,\"op\":");
    push_quoted(&mut line, request.op());
    push_str(&mut line, ",\"params\":");
    request.push_params(&mut line);
    push_str(&mut line, "}\n");
    assert(line@ =~= frame_json(*request));
    line
}

/// No newline in `s`.
pub open spec fn one_line(s: Seq<char>) -> bool {
    forall|i: int| 0 <= i < s.len() ==> s[i] != '\n'
}

/// The pre-rendered brightness of a display request holds no newline.
pub open spec fn raw_parts_one_line(r: Request) -> bool {
    match r {
        Request::DisplaySet { brightness: Some(t), .. } => one_line(t@),
        _ => true,
    }
}

proof fn lemma_join(a: Seq<char>, b: Seq<char>)
    requires
        one_line(a),
        one_line(b),
    ensures
        one_line(a + b),
{
    assert forall|i: int| 0 <= i < (a + b).len() implies (a + b)[i] != '\n' by {
        if i < a.len() {
            assert((a + b)[i] == a[i]);
        } else {
            assert((a + b)[i] == b[i - a.len()]);
        }
    }
}

proof fn lemma_decimal_one_line(n: nat)
    ensures
        one_line(decimal(n)),
    decreases n,
{
    if n >= 10 {
        lemma_decimal_one_line(n / 10);
        let d = digit_char(n % 10);
        assert(d != '\n');
        assert(decimal(n) == decimal(n / 10).push(d));
        assert forall|i: int| 0 <= i < decimal(n).len() implies decimal(n)[i] != '\n' by {
            if i < decimal(n / 10).len() {
                assert(decimal(n)[i] == decimal(n / 10)[i]);
            }
        }
    } else {
        assert(digit_char(n) != '\n');
    }
}

proof fn lemma_signed_one_line(i: int)
    ensures
        one_line(signed_decimal(i)),
{
    if i < 0 {
        lemma_decimal_one_line((-i) as nat);
        assert(one_line(seq!['-']));
        lemma_join(seq!['-'], decimal((-i) as nat));
    } else {
        lemma_decimal_one_line(i as nat);
    }
}

proof fn lemma_escape_one_line(s: Seq<char>)
    ensures
        one_line(json_escape(s)),
    decreases s.len(),
{
    if s.len() > 0 {
        lemma_escape_one_line(s.drop_last());
        let c = s.last();
        let e = json_escape_char(c);
        let n = c as u32;
        assert(hex_digit((n / 16) as nat) != '\n');
        assert(hex_digit((n % 16) as nat) != '\n');
        assert(one_line(e));
        lemma_join(json_escape(s.drop_last()), e);
    }
}

proof fn lemma_string_one_line(s: Seq<char>)
    ensures
        one_line(json_string(s)),
{
    lemma_escape_one_line(s);
    lemma_join(seq!['"'], json_escape(s));
    lemma_join(seq!['"'] + json_escape(s), seq!['"']);
}

proof fn lemma_literals_one_line()
    ensures
        one_line("{\"hidden\":"@),
        one_line(",\"password\":"@),
        one_line(",\"ssid\":"@),
        one_line("}"@),
        one_line("{\"ssid\":"@),
        one_line("{\"servers\":"@),
        one_line("{\"timezone\":"@),
        one_line("{\"use_24h\":"@),
        one_line("{\"language\":"@),
        one_line("{\"region\":"@),
        one_line("{\"layout\":"@),
        one_line(",\"variant\":"@),
        one_line("{\"auto\":"@),
        one_line("{\"id\":"@),
        one_line(",\"kind\":"@),
        one_line("{\"fill\":"@),
        one_line("{\"name\":"@),
        one_line(",\"path\":"@),
        one_line("{\"brightness\":"@),
        one_line(",\"height\":"@),
        one_line(",\"night_light\":"@),
        one_line(",\"output\":"@),
        one_line(",\"refresh\":"@),
        one_line(",\"width\":"@),
        one_line("{}"@),
        one_line("true"@),
        one_line("false"@),
        one_line("null"@),
        one_line("{\"id\":1,\"op\":"@),
        one_line(",\"params\":"@),
        "}\n"@ == seq!['}', '\n'],
        "}"@ == seq!['}'],
{
    reveal_strlit("{\"hidden\":");
    reveal_strlit(",\"password\":");
    reveal_strlit(",\"ssid\":");
    reveal_strlit("}");
    reveal_strlit("{\"ssid\":");
    reveal_strlit("{\"servers\":");
    reveal_strlit("{\"timezone\":");
    reveal_strlit("{\"use_24h\":");
    reveal_strlit("{\"language\":");
    reveal_strlit("{\"region\":");
    reveal_strlit("{\"layout\":");
    reveal_strlit(",\"variant\":");
    reveal_strlit("{\"auto\":");
    reveal_strlit("{\"id\":");
    reveal_strlit(",\"kind\":");
    reveal_strlit("{\"fill\":");
    reveal_strlit("{\"name\":");
    reveal_strlit(",\"path\":");
    reveal_strlit("{\"brightness\":");
    reveal_strlit(",\"height\":");
    reveal_strlit(",\"night_light\":");
    reveal_strlit(",\"output\":");
    reveal_strlit(",\"refresh\":");
    reveal_strlit(",\"width\":");
    reveal_strlit("{}");
    reveal_strlit("true");
    reveal_strlit("false");
    reveal_strlit("null");
    reveal_strlit("{\"id\":1,\"op\":");
    reveal_strlit(",\"params\":");
    reveal_strlit("}\n");
}

proof fn lemma_values_one_line(r: Request)
    ensures
        match r {
            Request::WifiConnect { password, .. } => one_line(opt_str_json(password)),
            Request::LocaleSetKeymap { variant, .. } => one_line(opt_str_json(variant)),
            Request::WallpaperAdd { name, .. } => one_line(opt_str_json(name)),
            Request::DisplaySet { output, width, height, refresh, night_light, .. } => {
                &&& one_line(opt_str_json(output))
                &&& one_line(opt_int_json(width))
                &&& one_line(opt_int_json(height))
                &&& one_line(opt_uint_json(refresh))
                &&& one_line(opt_bool_json(night_light))
            },
            _ => true,
        },
{
    lemma_literals_one_line();
    match r {
        Request::WifiConnect { password: Some(p), .. } => lemma_string_one_line(p@),
        Request::LocaleSetKeymap { variant: Some(v), .. } => lemma_string_one_line(v@),
        Request::WallpaperAdd { name: Some(n), .. } => lemma_string_one_line(n@),
        Request::DisplaySet { output, width, height, refresh, .. } => {
            if let Some(o) = output {
                lemma_string_one_line(o@);
            }
            if let Some(w) = width {
                lemma_signed_one_line(w as int);
            }
            if let Some(h) = height {
                lemma_signed_one_line(h as int);
            }
            if let Some(f) = refresh {
                lemma_decimal_one_line(f as nat);
            }
        },
        _ => {},
    }
}

/// Parameters of a request never hold a newline (given the pre-rendered
/// brightness holds none).
proof fn lemma_params_one_line(r: Request)
    requires
        raw_parts_one_line(r),
    ensures
        one_line(params_json(r)),
{
    lemma_literals_one_line();
    lemma_values_one_line(r);
    match r {
        Request::WifiConnect { ssid, password, hidden } => {
            lemma_string_one_line(ssid@);
            let parts = seq![
                "{\"hidden\":"@,
                bool_json(hidden),
                ",\"password\":"@,
                opt_str_json(password),
                ",\"ssid\":"@,
                json_string(ssid@),
                "}"@,
            ];
            lemma_join(parts[0], parts[1]);
            lemma_join(parts[0] + parts[1], parts[2]);
            lemma_join(parts[0] + parts[1] + parts[2], parts[3]);
            lemma_join(parts[0] + parts[1] + parts[2] + parts[3], parts[4]);
            lemma_join(parts[0] + parts[1] + parts[2] + parts[3] + parts[4], parts[5]);
            lemma_join(parts[0] + parts[1] + parts[2] + parts[3] + parts[4] + parts[5], parts[6]);
        },
        Request::WifiForget { ssid } => lemma_wrapped(ssid@, "{\"ssid\":"@),
        Request::DnsSet { servers } => lemma_wrapped(servers@, "{\"servers\":"@),
        Request::DatetimeSetTimezone { timezone } => lemma_wrapped(timezone@, "{\"timezone\":"@),
        Request::DatetimeSet24h { use_24h } => {
            lemma_join("{\"use_24h\":"@, bool_json(use_24h));
            lemma_join("{\"use_24h\":"@ + bool_json(use_24h), "}"@);
        },
        Request::LocaleSetLanguage { language } => lemma_wrapped(language@, "{\"language\":"@),
        Request::LocaleSetRegion { region } => lemma_wrapped(region@, "{\"region\":"@),
        Request::LocaleSetKeymap { layout, variant } => {
            lemma_string_one_line(layout@);
            let a = "{\"layout\":"@ + json_string(layout@);
            lemma_join("{\"layout\":"@, json_string(layout@));
            lemma_join(a, ",\"variant\":"@);
            lemma_join(a + ",\"variant\":"@, opt_str_json(variant));
            lemma_join(a + ",\"variant\":"@ + opt_str_json(variant), "}"@);
        },
        Request::LocaleSetAutoKeymap { auto } => {
            lemma_join("{\"auto\":"@, bool_json(auto));
            lemma_join("{\"auto\":"@ + bool_json(auto), "}"@);
        },
        Request::LocaleKeymapVariants { layout } => lemma_wrapped(layout@, "{\"layout\":"@),
        Request::WallpaperSetCurrent { kind, id } => {
            lemma_string_one_line(id@);
            lemma_string_one_line(kind@);
            let a = "{\"id\":"@ + json_string(id@);
            lemma_join("{\"id\":"@, json_string(id@));
            lemma_join(a, ",\"kind\":"@);
            lemma_join(a + ",\"kind\":"@, json_string(kind@));
            lemma_join(a + ",\"kind\":"@ + json_string(kind@), "}"@);
        },
        Request::WallpaperSetFill { fill } => lemma_wrapped(fill@, "{\"fill\":"@),
        Request::WallpaperAdd { path, name } => {
            lemma_string_one_line(path@);
            let a = "{\"name\":"@ + opt_str_json(name);
            lemma_join("{\"name\":"@, opt_str_json(name));
            lemma_join(a, ",\"path\":"@);
            lemma_join(a + ",\"path\":"@, json_string(path@));
            lemma_join(a + ",\"path\":"@ + json_string(path@), "}"@);
        },
        Request::WallpaperApply { kind, id, variant } => {
            lemma_string_one_line(id@);
            lemma_string_one_line(kind@);
            lemma_string_one_line(variant@);
            let a = "{\"id\":"@ + json_string(id@);
            let b = a + ",\"kind\":"@ + json_string(kind@);
            lemma_join("{\"id\":"@, json_string(id@));
            lemma_join(a, ",\"kind\":"@);
            lemma_join(a + ",\"kind\":"@, json_string(kind@));
            lemma_join(b, ",\"variant\":"@);
            lemma_join(b + ",\"variant\":"@, json_string(variant@));
            lemma_join(b + ",\"variant\":"@ + json_string(variant@), "}"@);
        },
        Request::DisplaySet { output, width, height, refresh, brightness, night_light } => {
            let a = "{\"brightness\":"@ + opt_raw_json(brightness);
            let b = a + ",\"height\":"@ + opt_int_json(height);
            let c = b + ",\"night_light\":"@ + opt_bool_json(night_light);
            let d = c + ",\"output\":"@ + opt_str_json(output);
            let e = d + ",\"refresh\":"@ + opt_uint_json(refresh);
            let f = e + ",\"width\":"@ + opt_int_json(width);
            lemma_join("{\"brightness\":"@, opt_raw_json(brightness));
            lemma_join(a, ",\"height\":"@);
            lemma_join(a + ",\"height\":"@, opt_int_json(height));
            lemma_join(b, ",\"night_light\":"@);
            lemma_join(b + ",\"night_light\":"@, opt_bool_json(night_light));
            lemma_join(c, ",\"output\":"@);
            lemma_join(c + ",\"output\":"@, opt_str_json(output));
            lemma_join(d, ",\"refresh\":"@);
            lemma_join(d + ",\"refresh\":"@, opt_uint_json(refresh));
            lemma_join(e, ",\"width\":"@);
            lemma_join(e + ",\"width\":"@, opt_int_json(width));
            lemma_join(f, "}"@);
        },
        _ => {},
    }
}

proof fn lemma_wrapped(value: Seq<char>, key: Seq<char>)
    requires
        one_line(key),
        one_line("}"@),
    ensures
        one_line(key + json_string(value) + "}"@),
{
    lemma_string_one_line(value);
    lemma_join(key, json_string(value));
    lemma_join(key + json_string(value), "}"@);
}

/// Every request is exactly one line of the protocol: the frame ends with
/// its only newline (the pre-rendered brightness of a display request
/// must hold none).
pub proof fn law_frame_is_one_line(r: Request)
    requires
        raw_parts_one_line(r),
    ensures
        frame_json(r).len() > 0,
        frame_json(r).last() == '\n',
        one_line(frame_json(r).drop_last()),
{
    lemma_literals_one_line();
    lemma_params_one_line(r);
    lemma_string_one_line(op_name(r));
    let head = "{\"id\":1,\"op\":"@ + json_string(op_name(r)) + ",\"params\":"@ + params_json(r);
    lemma_join("{\"id\":1,\"op\":"@, json_string(op_name(r)));
    lemma_join("{\"id\":1,\"op\":"@ + json_string(op_name(r)), ",\"params\":"@);
    lemma_join("{\"id\":1,\"op\":"@ + json_string(op_name(r)) + ",\"params\":"@, params_json(r));
    lemma_join(head, "}"@);
    assert(frame_json(r) == head + seq!['}', '\n']);
    assert(frame_json(r).drop_last() =~= head + "}"@);
}

/// Position of a request's kind in the daemon's operation table.
pub open spec fn kind_index(r: Request) -> nat {
    match r {
        Request::WifiList => 0,
        Request::WifiStatus => 1,
        Request::WifiKnownList => 2,
        Request::WifiConnect { .. } => 3,
        Request::WifiDisconnect => 4,
        Request::WifiEnable => 5,
        Request::WifiDisable => 6,
        Request::WifiForget { .. } => 7,
        Request::DnsGet => 8,
        Request::DnsSet { .. } => 9,
        Request::WiredList => 10,
        Request::DatetimeGet => 11,
        Request::DatetimeSetTimezone { .. } => 12,
        Request::DatetimeSet24h { .. } => 13,
        Request::LocaleGet => 14,
        Request::LocaleSetLanguage { .. } => 15,
        Request::LocaleSetRegion { .. } => 16,
        Request::LocaleSetKeymap { .. } => 17,
        Request::LocaleSetAutoKeymap { .. } => 18,
        Request::LocaleKeymapVariants { .. } => 19,
        Request::WallpaperGet => 20,
        Request::WallpaperSetCurrent { .. } => 21,
        Request::WallpaperSetFill { .. } => 22,
        Request::WallpaperAdd { .. } => 23,
        Request::WallpaperApply { .. } => 24,
        Request::GetOs => 25,
        Request::DisplayGet => 26,
        Request::DisplaySet { .. } => 27,
    }
}

/// Reads the kind back from an operation name, looking only at its
/// length and a character or two.
spec fn kind_of_name(name: Seq<char>) -> nat {
    let n = name.len();
    if n == 6 { 25 }
    else if n == 7 { if name[4] == 'g' { 8 } else { 9 } }
    else if n == 9 { 0 }
    else if n == 10 { if name[0] == 'w' { 10 } else { 14 } }
    else if n == 11 {
        if name[5] == 's' { 1 }
        else if name[5] == 'e' { 5 }
        else if name[5] == 'f' { 7 }
        else if name[8] == 'g' { 26 }
        else { 27 }
    }
    else if n == 12 { if name[5] == 'c' { 3 } else if name[5] == 'd' { 6 } else { 11 } }
    else if n == 13 { if name[10] == 'g' { 20 } else { 23 } }
    else if n == 15 { if name[5] == 'k' { 2 } else if name[5] == 'd' { 4 } else { 24 } }
    else if n == 16 { 13 }
    else if n == 17 { if name[11] == 'r' { 16 } else { 17 } }
    else if n == 18 { 22 }
    else if n == 19 { 15 }
    else if n == 21 { if name[0] == 'd' { 12 } else { 21 } }
    else { if name[7] == 's' { 18 } else { 19 } }
}

proof fn lemma_name_gives_kind(r: Request)
    ensures
        kind_of_name(op_name(r)) == kind_index(r),
{
    match r {
        Request::WifiList => {
            reveal_strlit("wifi_list");
        },
        Request::WifiStatus => {
            reveal_strlit("wifi_status");
        },
        Request::WifiKnownList => {
            reveal_strlit("wifi_known_list");
        },
        Request::WifiConnect { .. } => {
            reveal_strlit("wifi_connect");
        },
        Request::WifiDisconnect => {
            reveal_strlit("wifi_disconnect");
        },
        Request::WifiEnable => {
            reveal_strlit("wifi_enable");
        },
        Request::WifiDisable => {
            reveal_strlit("wifi_disable");
        },
        Request::WifiForget { .. } => {
            reveal_strlit("wifi_forget");
        },
        Request::DnsGet => {
            reveal_strlit("dns_get");
        },
        Request::DnsSet { .. } => {
            reveal_strlit("dns_set");
        },
        Request::WiredList => {
            reveal_strlit("wired_list");
        },
        Request::DatetimeGet => {
            reveal_strlit("datetime_get");
        },
        Request::DatetimeSetTimezone { .. } => {
            reveal_strlit("datetime_set_timezone");
        },
        Request::DatetimeSet24h { .. } => {
            reveal_strlit("datetime_set_24h");
        },
        Request::LocaleGet => {
            reveal_strlit("locale_get");
        },
        Request::LocaleSetLanguage { .. } => {
            reveal_strlit("locale_set_language");
        },
        Request::LocaleSetRegion { .. } => {
            reveal_strlit("locale_set_region");
        },
        Request::LocaleSetKeymap { .. } => {
            reveal_strlit("locale_set_keymap");
        },
        Request::LocaleSetAutoKeymap { .. } => {
            reveal_strlit("locale_set_auto_keymap");
        },
        Request::LocaleKeymapVariants { .. } => {
            reveal_strlit("locale_keymap_variants");
        },
        Request::WallpaperGet => {
            reveal_strlit("wallpaper_get");
        },
        Request::WallpaperSetCurrent { .. } => {
            reveal_strlit("wallpaper_set_current");
        },
        Request::WallpaperSetFill { .. } => {
            reveal_strlit("wallpaper_set_fill");
        },
        Request::WallpaperAdd { .. } => {
            reveal_strlit("wallpaper_add");
        },
        Request::WallpaperApply { .. } => {
            reveal_strlit("wallpaper_apply");
        },
        Request::GetOs => {
            reveal_strlit("get_os");
        },
        Request::DisplayGet => {
            reveal_strlit("display_get");
        },
        Request::DisplaySet { .. } => {
            reveal_strlit("display_set");
        },
    }
}

/// Different kinds of request go out under different operation names, so
/// the daemon never takes one request for another.
pub proof fn law_op_names_distinct(a: Request, b: Request)
    requires
        op_name(a) == op_name(b),
    ensures
        kind_index(a) == kind_index(b),
{
    lemma_name_gives_kind(a);
    lemma_name_gives_kind(b);
}

/// Each kind of request goes out under the daemon's name for that
/// operation, whatever its parameters.
pub proof fn law_op_table(r: Request)
    ensures
        kind_index(r) == 0 ==> op_name(r) == "wifi_list"@,
        kind_index(r) == 1 ==> op_name(r) == "wifi_status"@,
        kind_index(r) == 2 ==> op_name(r) == "wifi_known_list"@,
        kind_index(r) == 3 ==> op_name(r) == "wifi_connect"@,
        kind_index(r) == 4 ==> op_name(r) == "wifi_disconnect"@,
        kind_index(r) == 5 ==> op_name(r) == "wifi_enable"@,
        kind_index(r) == 6 ==> op_name(r) == "wifi_disable"@,
        kind_index(r) == 7 ==> op_name(r) == "wifi_forget"@,
        kind_index(r) == 8 ==> op_name(r) == "dns_get"@,
        kind_index(r) == 9 ==> op_name(r) == "dns_set"@,
        kind_index(r) == 10 ==> op_name(r) == "wired_list"@,
        kind_index(r) == 11 ==> op_name(r) == "datetime_get"@,
        kind_index(r) == 12 ==> op_name(r) == "datetime_set_timezone"@,
        kind_index(r) == 13 ==> op_name(r) == "datetime_set_24h"@,
        kind_index(r) == 14 ==> op_name(r) == "locale_get"@,
        kind_index(r) == 15 ==> op_name(r) == "locale_set_language"@,
        kind_index(r) == 16 ==> op_name(r) == "locale_set_region"@,
        kind_index(r) == 17 ==> op_name(r) == "locale_set_keymap"@,
        kind_index(r) == 18 ==> op_name(r) == "locale_set_auto_keymap"@,
        kind_index(r) == 19 ==> op_name(r) == "locale_keymap_variants"@,
        kind_index(r) == 20 ==> op_name(r) == "wallpaper_get"@,
        kind_index(r) == 21 ==> op_name(r) == "wallpaper_set_current"@,
        kind_index(r) == 22 ==> op_name(r) == "wallpaper_set_fill"@,
        kind_index(r) == 23 ==> op_name(r) == "wallpaper_add"@,
        kind_index(r) == 24 ==> op_name(r) == "wallpaper_apply"@,
        kind_index(r) == 25 ==> op_name(r) == "get_os"@,
        kind_index(r) == 26 ==> op_name(r) == "display_get"@,
        kind_index(r) == 27 ==> op_name(r) == "display_set"@,
{
    reveal_strlit("wifi_list");
    reveal_strlit("wifi_status");
    reveal_strlit("wifi_known_list");
    reveal_strlit("wifi_connect");
    reveal_strlit("wifi_disconnect");
    reveal_strlit("wifi_enable");
    reveal_strlit("wifi_disable");
    reveal_strlit("wifi_forget");
    reveal_strlit("dns_get");
    reveal_strlit("dns_set");
    reveal_strlit("wired_list");
    reveal_strlit("datetime_get");
    reveal_strlit("datetime_set_timezone");
    reveal_strlit("datetime_set_24h");
    reveal_strlit("locale_get");
    reveal_strlit("locale_set_language");
    reveal_strlit("locale_set_region");
    reveal_strlit("locale_set_keymap");
    reveal_strlit("locale_set_auto_keymap");
    reveal_strlit("locale_keymap_variants");
    reveal_strlit("wallpaper_get");
    reveal_strlit("wallpaper_set_current");
    reveal_strlit("wallpaper_set_fill");
    reveal_strlit("wallpaper_add");
    reveal_strlit("wallpaper_apply");
    reveal_strlit("get_os");
    reveal_strlit("display_get");
    reveal_strlit("display_set");
}

} // verus!
