//! The NapCat chat-bot runtime that sends notifications: where it lives, how its web UI is
//! reached, and what state the notification page reports.
//!
//! The file system, processes and HTTP are the application's; it hands the facts it gathered
//! to the functions here.

use vstd::prelude::*;
use crate::error::AppError;
use crate::text::{ascii_lower_seq, concat, lemma_lead_ws, lemma_trail_ws, nat_digits, parse_unsigned, parse_unsigned_spec, str_eq, to_ascii_lowercase, trim, trim_seq, u64_to_string};

verus! {

pub const NAPCAT_VERSION: &'static str = "v4.17.53";

pub const NAPCAT_ASSET_NAME: &'static str = "NapCat.Shell.Windows.OneKey.zip";

#[derive(Debug, Clone)]
pub struct NotificationPageStatusDto {
    pub env_status: String,
    pub is_enabled: bool,
    pub can_install_runtime: bool,
    pub runtime_version: String,
    pub install_dir: Option<String>,
    pub web_ui_url: Option<String>,
    pub one_bot_url: Option<String>,
    pub qq_number: Option<String>,
    pub group_id: String,
    pub last_error: Option<String>,
}

#[derive(Debug, Clone)]
pub struct NapCatRuntimeState {
    pub is_supported_os: bool,
    pub runtime_installed: bool,
    pub runtime_running: bool,
    pub is_logged_in: bool,
    pub group_id: String,
}

#[derive(Debug, Clone)]
pub struct NapCatWebUiInfo {
    pub web_ui_url: String,
    pub one_bot_url: Option<String>,
    pub token: Option<String>,
}

#[derive(Debug, Clone)]
pub struct NapCatWebUiInfoDto {
    pub web_ui_url: String,
    pub one_bot_url: Option<String>,
    pub token: Option<String>,
}

/// A runtime found in a configured directory, with its web UI.
#[derive(Debug, Clone)]
pub struct ExternalNapCatEnvironment {
    pub runtime_dir: String,
    pub webui_info: NapCatWebUiInfo,
}

pub open spec fn text_of(o: Option<String>) -> Option<Seq<char>> {
    match o {
        Some(s) => Some(s@),
        None => None,
    }
}

/// Whether the runtime can be managed here: Windows on x86-64.
pub fn is_supported_windows_x64(target_os: &str, target_arch: &str) -> (res: bool)
    ensures
        res == (target_os@ == "windows"@ && target_arch@ == "x86_64"@),
{
    str_eq(target_os, "windows") && str_eq(target_arch, "x86_64")
}

/// The runtime directory: the configured one, trimmed, unless it is blank; else the default.
pub fn resolve_runtime_dir(configured_install_dir: &str, default_dir: String) -> (res: String)
    ensures
        res@ == if trim_seq(configured_install_dir@).len() == 0 {
            default_dir@
        } else {
            trim_seq(configured_install_dir@)
        },
{
    let t = trim(configured_install_dir);
    if t.as_str().is_empty() {
        default_dir
    } else {
        t
    }
}

/// The directory to look for an external runtime in: the configured one, trimmed; none when
/// it is blank.
pub fn probe_external_environment(configured_install_dir: &str) -> (res: Option<String>)
    ensures
        trim_seq(configured_install_dir@).len() == 0 ==> res is None,
        trim_seq(configured_install_dir@).len() > 0 ==> text_of(res) == Some(trim_seq(configured_install_dir@)),
{
    let t = trim(configured_install_dir);
    if t.as_str().is_empty() {
        None
    } else {
        Some(t)
    }
}

/// The state the notification page shows, checked in this order: the system, the runtime's
/// installation, whether it runs, the login, the group id.
pub open spec fn env_status_spec(state: NapCatRuntimeState) -> Seq<char> {
    if !state.is_supported_os {
        "unsupported_os"@
    } else if !state.runtime_installed {
        "missing_runtime"@
    } else if !state.runtime_running {
        "runtime_not_running"@
    } else if !state.is_logged_in {
        "not_logged_in"@
    } else if trim_seq(state.group_id@).len() == 0 {
        "missing_group_id"@
    } else {
        "ready"@
    }
}

pub fn evaluate_env_status(state: &NapCatRuntimeState) -> (res: &'static str)
    ensures
        res@ == env_status_spec(*state),
{
    if !state.is_supported_os {
        return "unsupported_os";
    }
    if !state.runtime_installed {
        return "missing_runtime";
    }
    if !state.runtime_running {
        return "runtime_not_running";
    }
    if !state.is_logged_in {
        return "not_logged_in";
    }
    let g = trim(state.group_id.as_str());
    if g.as_str().is_empty() {
        return "missing_group_id";
    }
    "ready"
}

pub open spec fn is_loopback(h: Seq<char>) -> bool {
    h == "127.0.0.1"@ || h == "localhost"@ || h == "::1"@
}

/// The host of the web UI: a loopback host stays as it was given; anything else, or none,
/// becomes 127.0.0.1.
pub open spec fn loopback_host_spec(host: Option<Seq<char>>) -> Seq<char> {
    match host {
        Some(h) => if trim_seq(h).len() > 0 && is_loopback(ascii_lower_seq(trim_seq(h))) {
            h
        } else {
            "127.0.0.1"@
        },
        None => "127.0.0.1"@,
    }
}

pub fn coerce_loopback_host(host: Option<String>) -> (res: String)
    ensures
        res@ == loopback_host_spec(text_of(host)),
{
    match host {
        Some(h) => {
            let t = trim(h.as_str());
            if t.as_str().is_empty() {
                return "127.0.0.1".to_string();
            }
            let n = to_ascii_lowercase(t.as_str());
            let s = n.as_str();
            if str_eq(s, "127.0.0.1") || str_eq(s, "localhost") || str_eq(s, "::1") {
                h
            } else {
                "127.0.0.1".to_string()
            }
        },
        None => "127.0.0.1".to_string(),
    }
}

/// The first candidate that is a non-blank text, trimmed.
pub open spec fn first_text_spec(candidates: Seq<Option<String>>) -> Option<Seq<char>>
    decreases candidates.len(),
{
    if candidates.len() == 0 {
        None
    } else {
        match candidates[0] {
            Some(s) => if trim_seq(s@).len() > 0 {
                Some(trim_seq(s@))
            } else {
                first_text_spec(candidates.drop_first())
            },
            None => first_text_spec(candidates.drop_first()),
        }
    }
}

/// The first of the configuration's values for a list of keys that is a non-blank text.
pub fn first_string(candidates: &Vec<Option<String>>) -> (res: Option<String>)
    ensures
        text_of(res) == first_text_spec(candidates@),
{
    let mut k: usize = 0;
    assert(candidates@.skip(0) =~= candidates@);
    while k < candidates.len()
        invariant
            k <= candidates@.len(),
            first_text_spec(candidates@) == first_text_spec(candidates@.skip(k as int)),
        decreases candidates.len() - k,
    {
        assert(candidates@.skip(k as int).drop_first() =~= candidates@.skip(k + 1));
        match &candidates[k] {
            Some(s) => {
                let t = trim(s.as_str());
                if !t.as_str().is_empty() {
                    return Some(t);
                }
            },
            None => {},
        }
        k = k + 1;
    }
    None
}

/// The first candidate that is present.
pub open spec fn first_number_spec(candidates: Seq<Option<u64>>) -> Option<u64>
    decreases candidates.len(),
{
    if candidates.len() == 0 {
        None
    } else {
        match candidates[0] {
            Some(v) => Some(v),
            None => first_number_spec(candidates.drop_first()),
        }
    }
}

/// The first of the configuration's values for a list of keys that is an unsigned number.
pub fn first_u64(candidates: &Vec<Option<u64>>) -> (res: Option<u64>)
    ensures
        res == first_number_spec(candidates@),
{
    let mut k: usize = 0;
    assert(candidates@.skip(0) =~= candidates@);
    while k < candidates.len()
        invariant
            k <= candidates@.len(),
            first_number_spec(candidates@) == first_number_spec(candidates@.skip(k as int)),
        decreases candidates.len() - k,
    {
        assert(candidates@.skip(k as int).drop_first() =~= candidates@.skip(k + 1));
        match candidates[k] {
            Some(v) => {
                return Some(v);
            },
            None => {},
        }
        k = k + 1;
    }
    None
}

/// The web UI's configuration values, each the first present one of its keys.
#[derive(Debug, Clone)]
pub struct WebUiConfigValues {
    pub host: Option<String>,
    pub port: Option<u64>,
    pub one_bot_port: Option<u64>,
    pub token: Option<String>,
    pub web_ui_url: Option<String>,
    pub one_bot_url: Option<String>,
}

// ----- the web UI's configuration file ---------------------------------------------------

/// What `serde_json::from_str` says of a text that is not JSON: its error message (none for
/// a JSON text).
pub uninterp spec fn json_parse_failure(text: Seq<char>) -> Option<Seq<char>>;

/// The text stored under a key of the JSON object that a text holds (none when the key is
/// missing or holds no string, or the text is not a JSON object).
pub uninterp spec fn json_text_at(text: Seq<char>, key: Seq<char>) -> Option<Seq<char>>;

/// The unsigned integer stored under a key of the JSON object that a text holds (none when
/// the key is missing or holds anything but a non-negative integer that fits a `u64`).
pub uninterp spec fn json_u64_at(text: Seq<char>, key: Seq<char>) -> Option<u64>;

/// `serde_json::from_str` into a `serde_json::Value`: the message of its error, when the
/// text is not JSON (`json_parse_failure`).
#[verifier::external_body]
fn json_parse_error(text: &str) -> (res: Option<String>)
    ensures
        match res {
            Some(m) => json_parse_failure(text@) == Some(m@),
            None => json_parse_failure(text@) is None,
        },
{
    match serde_json::from_str::<serde_json::Value>(text) {
        Ok(_) => None,
        Err(error) => Some(error.to_string()),
    }
}

/// `serde_json::from_str`, then `Value::get` with the key and `Value::as_str`: the text
/// under the key (`json_text_at`).
#[verifier::external_body]
fn json_text_field(text: &str, key: &str) -> (res: Option<String>)
    ensures
        text_of(res) == json_text_at(text@, key@),
{
    match serde_json::from_str::<serde_json::Value>(text) {
        Ok(value) => value.get(key).and_then(serde_json::Value::as_str).map(str::to_owned),
        Err(_) => None,
    }
}

/// `serde_json::from_str`, then `Value::get` with the key and `Value::as_u64`: the number
/// under the key (`json_u64_at`).
#[verifier::external_body]
fn json_u64_field(text: &str, key: &str) -> (res: Option<u64>)
    ensures
        res == json_u64_at(text@, key@),
{
    match serde_json::from_str::<serde_json::Value>(text) {
        Ok(value) => value.get(key).and_then(serde_json::Value::as_u64),
        Err(_) => None,
    }
}

/// The first candidate that is a non-blank text, trimmed.
pub open spec fn first_nonblank(candidates: Seq<Option<Seq<char>>>) -> Option<Seq<char>>
    decreases candidates.len(),
{
    if candidates.len() == 0 {
        None
    } else {
        match candidates[0] {
            Some(s) => if trim_seq(s).len() > 0 {
                Some(trim_seq(s))
            } else {
                first_nonblank(candidates.drop_first())
            },
            None => first_nonblank(candidates.drop_first()),
        }
    }
}

proof fn lemma_first_text_nonblank(c: Seq<Option<String>>)
    ensures
        first_text_spec(c) == first_nonblank(c.map_values(|o: Option<String>| text_of(o))),
    decreases c.len(),
{
    if c.len() > 0 {
        assert(c.drop_first().map_values(|o: Option<String>| text_of(o))
            =~= c.map_values(|o: Option<String>| text_of(o)).drop_first());
        lemma_first_text_nonblank(c.drop_first());
    }
}

/// The first of the keys under which the configuration text holds a non-blank text, trimmed.
pub open spec fn config_text(text: Seq<char>, keys: Seq<Seq<char>>) -> Option<Seq<char>> {
    first_nonblank(keys.map_values(|k: Seq<char>| json_text_at(text, k)))
}

/// The first of the keys under which the configuration text holds an unsigned number.
pub open spec fn config_u64(text: Seq<char>, keys: Seq<Seq<char>>) -> Option<u64> {
    first_number_spec(keys.map_values(|k: Seq<char>| json_u64_at(text, k)))
}

fn text_under(text: &str, k0: &str, k1: &str, k2: &str) -> (res: Option<String>)
    ensures
        text_of(res) == config_text(text@, seq![k0@, k1@, k2@]),
{
    let candidates = vec![json_text_field(text, k0), json_text_field(text, k1), json_text_field(text, k2)];
    let res = first_string(&candidates);
    proof {
        lemma_first_text_nonblank(candidates@);
        assert(candidates@.map_values(|o: Option<String>| text_of(o))
            =~= seq![k0@, k1@, k2@].map_values(|k: Seq<char>| json_text_at(text@, k)));
    }
    res
}

/// The web UI's configuration values read from the text of its configuration file: each the
/// first present one of its keys (`host`, `webuiHost`, `webui_host` for the host; `port`,
/// `webuiPort`, `webui_port` for the port; `onebotPort`, `onebot_port` for the bot's port;
/// `token`, `accessToken`, `access_token` for the token; `webUiUrl`, `webuiUrl`, `webui_url`
/// for the web UI's address; `oneBotUrl`, `onebotUrl`, `onebot_url` for the bot's address).
/// A text that is not JSON gives the parser's message.
pub fn webui_config_from_text(text: &str) -> (res: Result<WebUiConfigValues, String>)
    ensures
        match res {
            Err(m) => json_parse_failure(text@) == Some(m@),
            Ok(v) => {
                &&& json_parse_failure(text@) is None
                &&& text_of(v.host) == config_text(text@, seq!["host"@, "webuiHost"@, "webui_host"@])
                &&& v.port == config_u64(text@, seq!["port"@, "webuiPort"@, "webui_port"@])
                &&& v.one_bot_port == config_u64(text@, seq!["onebotPort"@, "onebot_port"@])
                &&& text_of(v.token) == config_text(text@, seq!["token"@, "accessToken"@, "access_token"@])
                &&& text_of(v.web_ui_url) == config_text(text@, seq!["webUiUrl"@, "webuiUrl"@, "webui_url"@])
                &&& text_of(v.one_bot_url) == config_text(text@, seq!["oneBotUrl"@, "onebotUrl"@, "onebot_url"@])
            },
        },
{
    if let Some(message) = json_parse_error(text) {
        return Err(message);
    }
    let port = first_u64(&vec![json_u64_field(text, "port"), json_u64_field(text, "webuiPort"), json_u64_field(text, "webui_port")]);
    let one_bot_port = first_u64(&vec![json_u64_field(text, "onebotPort"), json_u64_field(text, "onebot_port")]);
    proof {
        assert(seq!["port"@, "webuiPort"@, "webui_port"@].map_values(|k: Seq<char>| json_u64_at(text@, k))
            =~= seq![json_u64_at(text@, "port"@), json_u64_at(text@, "webuiPort"@), json_u64_at(text@, "webui_port"@)]);
        assert(seq!["onebotPort"@, "onebot_port"@].map_values(|k: Seq<char>| json_u64_at(text@, k))
            =~= seq![json_u64_at(text@, "onebotPort"@), json_u64_at(text@, "onebot_port"@)]);
    }
    Ok(WebUiConfigValues {
        host: text_under(text, "host", "webuiHost", "webui_host"),
        port,
        one_bot_port,
        token: text_under(text, "token", "accessToken", "access_token"),
        web_ui_url: text_under(text, "webUiUrl", "webuiUrl", "webui_url"),
        one_bot_url: text_under(text, "oneBotUrl", "onebotUrl", "onebot_url"),
    })
}

/// The web UI that a configuration text describes: the values read from it as by
/// `webui_config_from_text`, turned into addresses as by `webui_info_from_config`.
pub open spec fn webui_info_of_text(text: Seq<char>, info: NapCatWebUiInfo) -> bool {
    exists|v: WebUiConfigValues|
        {
            &&& text_of(v.host) == config_text(text, seq!["host"@, "webuiHost"@, "webui_host"@])
            &&& v.port == config_u64(text, seq!["port"@, "webuiPort"@, "webui_port"@])
            &&& v.one_bot_port == config_u64(text, seq!["onebotPort"@, "onebot_port"@])
            &&& text_of(v.token) == config_text(text, seq!["token"@, "accessToken"@, "access_token"@])
            &&& text_of(v.web_ui_url) == config_text(text, seq!["webUiUrl"@, "webuiUrl"@, "webui_url"@])
            &&& text_of(v.one_bot_url) == config_text(text, seq!["oneBotUrl"@, "onebotUrl"@, "onebot_url"@])
            &&& #[trigger] webui_url_spec(v) == info.web_ui_url@
            &&& text_of(info.one_bot_url) == onebot_url_spec(v)
            &&& text_of(info.token) == text_of(v.token)
        }
}

/// The error for a configuration file at `path` whose text is not JSON.
pub open spec fn webui_parse_error(path: Seq<char>, text: Seq<char>, message: Seq<char>) -> bool {
    exists|e: Seq<char>| json_parse_failure(text) == Some(e) && message == "failed to parse webui config at "@ + path + ": "@ + e
}

/// The web UI of a runtime from the text of its configuration file at `path`
/// (`webui_info_of_text`). A text that is not JSON fails with "failed to parse webui config
/// at <path>: <parser message>".
pub fn webui_info_from_file(path: &str, text: &str) -> (res: Result<NapCatWebUiInfo, AppError>)
    ensures
        match res {
            Err(AppError::Message(m)) => webui_parse_error(path@, text@, m@),
            Ok(info) => json_parse_failure(text@) is None && webui_info_of_text(text@, info),
        },
{
    match webui_config_from_text(text) {
        Ok(values) => Ok(webui_info_from_config(values)),
        Err(message) => {
            let a = concat("failed to parse webui config at ", path);
            let b = concat(a.as_str(), ": ");
            Err(AppError::Message(concat(b.as_str(), message.as_str())))
        },
    }
}

/// What a configured directory holds once it is known to exist: with no web UI configuration
/// file found in it, no runtime; with one (its path and text), the runtime in that directory
/// and the web UI the file describes, or the error of a file that is not JSON.
pub fn external_environment(runtime_dir: String, webui_file: Option<(String, String)>) -> (res: Result<
    Option<ExternalNapCatEnvironment>,
    AppError,
>)
    ensures
        match webui_file {
            None => res matches Ok(None),
            Some((path, text)) => match res {
                Ok(Some(env)) => env.runtime_dir@ == runtime_dir@ && json_parse_failure(text@) is None
                    && webui_info_of_text(text@, env.webui_info),
                Ok(None) => false,
                Err(AppError::Message(m)) => webui_parse_error(path@, text@, m@),
            },
        },
{
    match webui_file {
        None => Ok(None),
        Some((path, text)) => match webui_info_from_file(path.as_str(), text.as_str()) {
            Ok(webui_info) => Ok(Some(ExternalNapCatEnvironment { runtime_dir, webui_info })),
            Err(e) => Err(e),
        },
    }
}

/// "http://host:port".
pub open spec fn http_url(host: Seq<char>, port: u64) -> Seq<char> {
    "http://"@ + host + ":"@ + nat_digits(port as nat)
}

/// The web UI of a runtime from its configuration: the configured address, else one built
/// from the (loopback) host and the port (6099 by default), with the token when there is a
/// non-empty one; the bot's address as configured, else built from its port when there is
/// one.
pub open spec fn webui_url_spec(v: WebUiConfigValues) -> Seq<char> {
    let host = loopback_host_spec(text_of(v.host));
    let port = match v.port {
        Some(p) => p,
        None => 6099u64,
    };
    match v.web_ui_url {
        Some(u) => u@,
        None => match v.token {
            Some(t) => if t@.len() > 0 {
                http_url(host, port) + "/?token="@ + t@
            } else {
                http_url(host, port)
            },
            None => http_url(host, port),
        },
    }
}

pub open spec fn onebot_url_spec(v: WebUiConfigValues) -> Option<Seq<char>> {
    match v.one_bot_url {
        Some(u) => Some(u@),
        None => match v.one_bot_port {
            Some(p) => Some(http_url(loopback_host_spec(text_of(v.host)), p)),
            None => None,
        },
    }
}

fn http_url_of(host: &str, port: u64) -> (res: String)
    ensures
        res@ == http_url(host@, port),
{
    let a = concat("http://", host);
    let b = concat(a.as_str(), ":");
    concat(b.as_str(), u64_to_string(port).as_str())
}

pub fn webui_info_from_config(values: WebUiConfigValues) -> (res: NapCatWebUiInfo)
    ensures
        res.web_ui_url@ == webui_url_spec(values),
        text_of(res.one_bot_url) == onebot_url_spec(values),
        text_of(res.token) == text_of(values.token),
{
    let ghost v = values;
    let host = coerce_loopback_host(values.host);
    let port = match values.port {
        Some(p) => p,
        None => 6099,
    };
    let web_ui_url = match values.web_ui_url {
        Some(u) => u,
        None => {
            let base = http_url_of(host.as_str(), port);
            match &values.token {
                Some(t) => if !t.as_str().is_empty() {
                    let a = concat(base.as_str(), "/?token=");
                    concat(a.as_str(), t.as_str())
                } else {
                    base
                },
                None => base,
            }
        },
    };
    let one_bot_url = match values.one_bot_url {
        Some(u) => Some(u),
        None => match values.one_bot_port {
            Some(p) => Some(http_url_of(host.as_str(), p)),
            None => None,
        },
    };
    assert(host@ == loopback_host_spec(text_of(v.host)));
    NapCatWebUiInfo { web_ui_url, one_bot_url, token: values.token }
}

/// The token to query the bot with: the web UI's when it is non-empty, else the configured
/// one.
pub fn effective_onebot_token(webui_token: &Option<String>, configured_token: String) -> (res: String)
    ensures
        res@ == match webui_token {
            Some(t) => if t@.len() > 0 {
                t@
            } else {
                configured_token@
            },
            None => configured_token@,
        },
{
    match webui_token {
        Some(t) => if !t.as_str().is_empty() {
            t.clone()
        } else {
            configured_token
        },
        None => configured_token,
    }
}

/// A stored process id: none when blank, else the trimmed text as a `u32` if it is one.
pub fn get_account_u32(value: &str) -> (res: Option<u32>)
    ensures
        trim_seq(value@).len() == 0 ==> res is None,
        trim_seq(value@).len() > 0 ==> match parse_unsigned_spec(trim_seq(value@), 0xffff_ffff) {
            Some(v) => res == Some(v as u32),
            None => res is None,
        },
{
    let t = trim(value);
    if t.as_str().is_empty() {
        return None;
    }
    match parse_unsigned(t.as_str(), 0xffff_ffff) {
        Some(v) => Some(v as u32),
        None => None,
    }
}

/// What the application found about the runtime.
#[derive(Debug, Clone)]
pub struct RuntimeFacts {
    pub is_enabled: bool,
    pub group_id: String,
    pub runtime_version: String,
    pub windows_managed: bool,
    pub is_supported_os: bool,
    pub runtime_installed: bool,
    pub runtime_dir: Option<String>,
    pub webui_info: Option<NapCatWebUiInfo>,
    pub pid_running: bool,
    /// The bot's answer to the login query: `None` when it was not asked or could not be
    /// reached, else the logged-in number, if any.
    pub login: Option<Option<String>>,
}

/// The notification page's status from the gathered facts: the runtime runs when its process
/// does or the bot answered; it is logged in when the bot named a number.
pub fn get_notification_status(facts: RuntimeFacts) -> (res: NotificationPageStatusDto)
    ensures
        ({
            let running = facts.pid_running || facts.login is Some;
            let logged_in = facts.login matches Some(Some(_));
            res.env_status@ == env_status_spec(
                NapCatRuntimeState {
                    is_supported_os: facts.is_supported_os,
                    runtime_installed: facts.runtime_installed,
                    runtime_running: running,
                    is_logged_in: logged_in,
                    group_id: facts.group_id,
                },
            )
        }),
        res.is_enabled == facts.is_enabled,
        res.can_install_runtime == facts.windows_managed,
        res.runtime_version@ == facts.runtime_version@,
        text_of(res.install_dir) == if facts.runtime_installed {
            text_of(facts.runtime_dir)
        } else {
            None
        },
        text_of(res.web_ui_url) == match facts.webui_info {
            Some(w) => Some(w.web_ui_url@),
            None => None,
        },
        text_of(res.one_bot_url) == match facts.webui_info {
            Some(w) => text_of(w.one_bot_url),
            None => None,
        },
        text_of(res.qq_number) == match facts.login {
            Some(n) => text_of(n),
            None => None,
        },
        res.group_id@ == facts.group_id@,
        res.last_error is None,
{
    let ghost f = facts;
    let running = facts.pid_running || facts.login.is_some();
    let qq_number = match facts.login {
        Some(n) => n,
        None => None,
    };
    let state = NapCatRuntimeState {
        is_supported_os: facts.is_supported_os,
        runtime_installed: facts.runtime_installed,
        runtime_running: running,
        is_logged_in: qq_number.is_some(),
        group_id: facts.group_id.clone(),
    };
    let env_status = evaluate_env_status(&state).to_string();
    let install_dir = if facts.runtime_installed {
        facts.runtime_dir
    } else {
        None
    };
    let (web_ui_url, one_bot_url) = match facts.webui_info {
        Some(w) => (Some(w.web_ui_url), w.one_bot_url),
        None => (None, None),
    };
    NotificationPageStatusDto {
        env_status,
        is_enabled: facts.is_enabled,
        can_install_runtime: facts.windows_managed,
        runtime_version: facts.runtime_version,
        install_dir,
        web_ui_url,
        one_bot_url,
        qq_number,
        group_id: facts.group_id,
        last_error: None,
    }
}

/// The web UI is always reached on a loopback host: whatever host is configured, the one
/// used is, trimmed and lower-cased, 127.0.0.1, localhost or ::1.
pub proof fn law_webui_host_is_loopback(host: Option<Seq<char>>)
    ensures
        is_loopback(ascii_lower_seq(trim_seq(loopback_host_spec(host)))),
{
    reveal_strlit("127.0.0.1");
    let d = "127.0.0.1"@;
    lemma_lead_ws(d, 0);
    let t = d.subrange(0, d.len() as int);
    assert(t =~= d);
    lemma_trail_ws(t, 0);
    assert(trim_seq(d) =~= d);
    assert(ascii_lower_seq(d) =~= d);
}

/// A field of the bot's login reply, as far as the logged-in number is read from it: a
/// text, a number (by its decimal text) or anything else.
pub enum LoginReplyField {
    Text(String),
    Number(String),
    Other,
}

/// The number that a login reply names: the `user_id` field when the reply has one, else
/// `uin`; a text counts trimmed and only when something is left, a number counts by its text.
pub open spec fn login_number_spec(user_id: Option<LoginReplyField>, uin: Option<LoginReplyField>) -> Option<Seq<char>> {
    let field = match user_id {
        Some(f) => Some(f),
        None => uin,
    };
    match field {
        Some(LoginReplyField::Text(t)) => if trim_seq(t@).len() > 0 {
            Some(trim_seq(t@))
        } else {
            None
        },
        Some(LoginReplyField::Number(n)) => Some(n@),
        _ => None,
    }
}

/// The logged-in number named by the login reply's `user_id` or `uin` field (`None` for a
/// field the reply lacks).
pub fn login_number(user_id: Option<LoginReplyField>, uin: Option<LoginReplyField>) -> (res: Option<String>)
    ensures
        match res {
            Some(s) => login_number_spec(user_id, uin) == Some(s@),
            None => login_number_spec(user_id, uin) is None,
        },
{
    let field = match user_id {
        Some(f) => Some(f),
        None => uin,
    };
    match field {
        Some(LoginReplyField::Text(t)) => {
            let trimmed = trim(t.as_str());
            if !trimmed.as_str().is_empty() {
                Some(trimmed)
            } else {
                None
            }
        },
        Some(LoginReplyField::Number(n)) => Some(n),
        _ => None,
    }
}

} // verus!
