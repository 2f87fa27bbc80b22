//! Reply frames of the settings daemon protocol: `{"id":1,"ok":true,
//! "result":...}` or `{"id":1,"ok":false,"error":...}`, and what each
//! operation takes from the result.

use vstd::prelude::*;
use crate::daemon::json::{
    JsonSpec, JsonValue, get_member, json_as_bool, json_as_str, member, parse_json, parsed_json,
    text_as_bool, text_as_str,
};
use crate::daemon::request::{kind_index, Request};
use crate::text::push_str;

verus! {

/// The `ok` flag of a reply frame; missing or not a boolean counts as false.
pub open spec fn reply_ok(reply: JsonSpec) -> bool {
    match member(reply, "ok"@) {
        Some(t) => match text_as_bool(t) {
            Some(b) => b,
            None => false,
        },
        None => false,
    }
}

/// A reply frame's outcome: the JSON text of `result` (`null` when
/// missing) for a success frame, else the `error` string (`daemon error`
/// when missing or not a string).
pub open spec fn reply_outcome(reply: JsonSpec) -> Result<Seq<char>, Seq<char>> {
    if reply_ok(reply) {
        Ok(
            match member(reply, "result"@) {
                Some(t) => t,
                None => "null"@,
            },
        )
    } else {
        Err(
            match member(reply, "error"@) {
                Some(t) => match text_as_str(t) {
                    Some(s) => s,
                    None => "daemon error"@,
                },
                None => "daemon error"@,
            },
        )
    }
}

/// The outcome of a whole reply line: a parse failure is reported as
/// `daemon reply invalid: <parse error>`; a success frame gives the result's
/// JSON text and its parsed top level.
pub open spec fn reply_line_outcome(line: Seq<char>) -> Result<(Seq<char>, JsonSpec), Seq<char>> {
    match parsed_json(line) {
        Err(e) => Err("daemon reply invalid: "@ + e),
        Ok(reply) => match reply_outcome(reply) {
            Err(message) => Err(message),
            Ok(result) => match parsed_json(result) {
                Ok(v) => Ok((result, v)),
                Err(e) => Err("daemon reply invalid: "@ + e),
            },
        },
    }
}

/// The `result` of a success frame: its JSON text and its top level.
#[derive(Debug, Clone)]
pub struct DaemonResult {
    pub json: String,
    pub value: JsonValue,
}

fn invalid_reply(e: &str) -> (message: String)
    ensures
        message@ == "daemon reply invalid: "@ + e@,
{
    let mut message = String::new();
    push_str(&mut message, "daemon reply invalid: ");
    push_str(&mut message, e);
    message
}

/// Outcome of one reply frame (already parsed): `Ok` with the result's
/// JSON text when `ok` is true, else `Err` with the daemon's message.
pub fn classify_reply(reply: &JsonValue) -> (outcome: Result<String, String>)
    ensures
        match outcome {
            Ok(t) => reply_outcome(reply@) == Ok::<Seq<char>, Seq<char>>(t@),
            Err(e) => reply_outcome(reply@) == Err::<Seq<char>, Seq<char>>(e@),
        },
{
    let ok = match get_member(reply, "ok") {
        Some(t) => match json_as_bool(t.as_str()) {
            Some(b) => b,
            None => false,
        },
        None => false,
    };
    if ok {
        match get_member(reply, "result") {
            Some(t) => Ok(t.clone()),
            None => Ok("null".to_string()),
        }
    } else {
        match get_member(reply, "error") {
            Some(t) => match json_as_str(t.as_str()) {
                Some(s) => Err(s),
                None => Err("daemon error".to_string()),
            },
            None => Err("daemon error".to_string()),
        }
    }
}

/// Reads one reply line of the daemon: the result of a success frame, or
/// the error to report (the daemon's message, or `daemon reply invalid:`
/// with the parse error).
pub fn reply_result(line: &str) -> (outcome: Result<DaemonResult, String>)
    ensures
        match outcome {
            Ok(r) => reply_line_outcome(line@) == Ok::<(Seq<char>, JsonSpec), Seq<char>>(
                (r.json@, r.value@),
            ),
            Err(e) => reply_line_outcome(line@) == Err::<(Seq<char>, JsonSpec), Seq<char>>(e@),
        },
{
    let reply = match parse_json(line) {
        Ok(v) => v,
        Err(e) => return Err(invalid_reply(e.as_str())),
    };
    let result = match classify_reply(&reply) {
        Ok(t) => t,
        Err(message) => return Err(message),
    };
    match parse_json(result.as_str()) {
        Ok(value) => Ok(DaemonResult { json: result, value }),
        Err(e) => Err(invalid_reply(e.as_str())),
    }
}

/// A boolean member of a result, with the default used when it is
/// missing or not a boolean.
pub open spec fn bool_member_or(v: JsonSpec, key: Seq<char>, default: bool) -> bool {
    match member(v, key) {
        Some(t) => match text_as_bool(t) {
            Some(b) => b,
            None => default,
        },
        None => default,
    }
}

/// A member's JSON text, `null` when missing.
pub open spec fn member_or_null(v: JsonSpec, key: Seq<char>) -> Seq<char> {
    match member(v, key) {
        Some(t) => t,
        None => "null"@,
    }
}

fn bool_member(v: &JsonValue, key: &str, default: bool) -> (b: bool)
    ensures
        b == bool_member_or(v@, key@, default),
{
    match get_member(v, key) {
        Some(t) => match json_as_bool(t.as_str()) {
            Some(b) => b,
            None => default,
        },
        None => default,
    }
}

fn member_text(v: &JsonValue, key: &str) -> (t: String)
    ensures
        t@ == member_or_null(v@, key@),
{
    match get_member(v, key) {
        Some(t) => t.clone(),
        None => "null".to_string(),
    }
}

/// The radio fields of a `wifi_status` result: `enabled` (false when
/// missing), `available` (true when missing) and the JSON text of the
/// active connection `status` (`null` when missing).
pub fn radio_fields(result: &JsonValue) -> (fields: (bool, bool, String))
    ensures
        fields.0 == bool_member_or(result@, "enabled"@, false),
        fields.1 == bool_member_or(result@, "available"@, true),
        fields.2@ == member_or_null(result@, "status"@),
{
    (bool_member(result, "enabled", false), bool_member(result, "available", true), member_text(
        result,
        "status",
    ))
}

/// Whether `wifi_forget` removed a profile or store entry (`forgotten`,
/// false when missing).
pub fn forgotten(result: &JsonValue) -> (removed: bool)
    ensures
        removed == bool_member_or(result@, "forgotten"@, false),
{
    bool_member(result, "forgotten", false)
}

/// The fill mode `wallpaper_set_fill` applied, or the error when the
/// result carries no `fill` string.
pub fn applied_fill(result: &JsonValue) -> (fill: Result<String, String>)
    ensures
        match fill {
            Ok(f) => match member(result@, "fill"@) {
                Some(t) => text_as_str(t) == Some(f@),
                None => false,
            },
            Err(e) => e@ == "wallpaper set invalid: missing fill"@ && match member(
                result@,
                "fill"@,
            ) {
                Some(t) => text_as_str(t) is None,
                None => true,
            },
        },
{
    match get_member(result, "fill") {
        Some(t) => match json_as_str(t.as_str()) {
            Some(f) => Ok(f),
            None => Err("wallpaper set invalid: missing fill".to_string()),
        },
        None => Err("wallpaper set invalid: missing fill".to_string()),
    }
}

/// The result member holding an operation's payload, if it is not the
/// whole result.
pub open spec fn payload_key(r: Request) -> Option<Seq<char>> {
    match r {
        Request::WifiList => Some("networks"@),
        Request::WifiKnownList => Some("networks"@),
        Request::WiredList => Some("interfaces"@),
        Request::LocaleKeymapVariants { .. } => Some("variants"@),
        Request::GetOs => Some("os"@),
        _ => None,
    }
}

/// How an operation names itself in a payload error.
pub open spec fn error_context(r: Request) -> Seq<char> {
    match r {
        Request::WifiList => "wifi list"@,
        Request::WifiStatus => "wifi status"@,
        Request::WifiKnownList => "wifi known list"@,
        Request::WifiConnect { .. } => "wifi connect"@,
        Request::WifiDisconnect => "wifi disconnect"@,
        Request::WifiEnable => "wifi enable"@,
        Request::WifiDisable => "wifi disable"@,
        Request::WifiForget { .. } => "wifi forget"@,
        Request::DnsGet => "dns get"@,
        Request::DnsSet { .. } => "dns set"@,
        Request::WiredList => "wired list"@,
        Request::DatetimeGet => "datetime get"@,
        Request::DatetimeSetTimezone { .. } => "datetime set"@,
        Request::DatetimeSet24h { .. } => "datetime set"@,
        Request::LocaleGet => "locale get"@,
        Request::LocaleSetLanguage { .. } => "locale set"@,
        Request::LocaleSetRegion { .. } => "locale set"@,
        Request::LocaleSetKeymap { .. } => "locale set"@,
        Request::LocaleSetAutoKeymap { .. } => "locale set"@,
        Request::LocaleKeymapVariants { .. } => "locale variants"@,
        Request::WallpaperGet => "wallpaper get"@,
        Request::WallpaperSetCurrent { .. } => "wallpaper set"@,
        Request::WallpaperSetFill { .. } => "wallpaper set"@,
        Request::WallpaperAdd { .. } => "wallpaper add"@,
        Request::WallpaperApply { .. } => "wallpaper apply"@,
        Request::GetOs => "os info"@,
        Request::DisplayGet => "display get"@,
        Request::DisplaySet { .. } => "display set"@,
    }
}

impl Request {
    /// The result member holding this operation's payload, if any.
    pub fn payload_member(&self) -> (key: Option<&'static str>)
        ensures
            match key {
                Some(k) => payload_key(*self) == Some(k@),
                None => payload_key(*self) is None,
            },
    {
        match self {
            Request::WifiList => Some("networks"),
            Request::WifiKnownList => Some("networks"),
            Request::WiredList => Some("interfaces"),
            Request::LocaleKeymapVariants { .. } => Some("variants"),
            Request::GetOs => Some("os"),
            _ => None,
        }
    }

    /// How this operation names itself in a payload error.
    pub fn context(&self) -> (name: &'static str)
        ensures
            name@ == error_context(*self),
    {
        match self {
            Request::WifiList => "wifi list",
            Request::WifiStatus => "wifi status",
            Request::WifiKnownList => "wifi known list",
            Request::WifiConnect { .. } => "wifi connect",
            Request::WifiDisconnect => "wifi disconnect",
            Request::WifiEnable => "wifi enable",
            Request::WifiDisable => "wifi disable",
            Request::WifiForget { .. } => "wifi forget",
            Request::DnsGet => "dns get",
            Request::DnsSet { .. } => "dns set",
            Request::WiredList => "wired list",
            Request::DatetimeGet => "datetime get",
            Request::DatetimeSetTimezone { .. } => "datetime set",
            Request::DatetimeSet24h { .. } => "datetime set",
            Request::LocaleGet => "locale get",
            Request::LocaleSetLanguage { .. } => "locale set",
            Request::LocaleSetRegion { .. } => "locale set",
            Request::LocaleSetKeymap { .. } => "locale set",
            Request::LocaleSetAutoKeymap { .. } => "locale set",
            Request::LocaleKeymapVariants { .. } => "locale variants",
            Request::WallpaperGet => "wallpaper get",
            Request::WallpaperSetCurrent { .. } => "wallpaper set",
            Request::WallpaperSetFill { .. } => "wallpaper set",
            Request::WallpaperAdd { .. } => "wallpaper add",
            Request::WallpaperApply { .. } => "wallpaper apply",
            Request::GetOs => "os info",
            Request::DisplayGet => "display get",
            Request::DisplaySet { .. } => "display set",
        }
    }
}

/// The JSON text an operation's payload is decoded from: its payload
/// member (`null` when missing), or the whole result.
pub fn payload_json(request: &Request, result: &DaemonResult) -> (payload: String)
    ensures
        payload@ == (match payload_key(*request) {
            Some(k) => member_or_null(result.value@, k),
            None => result.json@,
        }),
{
    match request.payload_member() {
        Some(k) => member_text(&result.value, k),
        None => result.json.clone(),
    }
}

/// The error reported when an operation's payload does not decode:
/// `<operation> invalid: <decode error>`.
pub fn payload_error(request: &Request, detail: &str) -> (message: String)
    ensures
        message@ == error_context(*request) + " invalid: "@ + detail@,
{
    let mut message = String::new();
    push_str(&mut message, request.context());
    push_str(&mut message, " invalid: ");
    push_str(&mut message, detail);
    message
}

/// Where each operation's payload sits in its result, as the daemon
/// protocol names it: the `networks` of the scan and the known list, the
/// `interfaces` of the wired list, the `variants` of a layout, the `os` of
/// the OS identity; every other operation's payload is its whole result.
pub proof fn law_payload_members(r: Request)
    ensures
        kind_index(r) == 0 ==> payload_key(r) == Some("networks"@),
        kind_index(r) == 2 ==> payload_key(r) == Some("networks"@),
        kind_index(r) == 10 ==> payload_key(r) == Some("interfaces"@),
        kind_index(r) == 19 ==> payload_key(r) == Some("variants"@),
        kind_index(r) == 25 ==> payload_key(r) == Some("os"@),
        kind_index(r) != 0 && kind_index(r) != 2 && kind_index(r) != 10 && kind_index(r) != 19
            && kind_index(r) != 25 ==> payload_key(r) is None,
{
}

} // verus!
