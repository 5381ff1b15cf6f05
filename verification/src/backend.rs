//! What is asked of the server for the screens, and what is made of its answers.

use crate::config::{Config, ConfigV};
use crate::decimal;
use crate::decimal::push_u64;
use crate::error;
use crate::error::AppError;
use crate::json;
use crate::json::codec;
use crate::json::{Json, JsonV};
use crate::text;
use crate::text::{
    char_is_digit, chars_of, contains_char, starts_with, string_of, strip_prefix, trim,
};
use crate::ui::states::DeployStatus;
use crate::xray::answers;
use crate::xray::client;
use crate::xray::client::{CommandOutput, ServerInfo};
use crate::xray::routing;
use crate::xray::types;
use crate::xray::types::{ServerConfig, TrafficStats, VlessUrlParams, XrayUser};
use crate::xray::urls;
use crate::xray::urls::{generate_amnezia_url, generate_vless_url};
use vstd::prelude::*;

pub mod fetch;
pub mod laws;

verus! {

/// The server's public key, inside the container.
pub const PUBLIC_KEY_PATH: &'static str = "/opt/amnezia/xray/xray_public.key";

/// The parameters of the bridge, on the host.
pub const BRIDGE_PARAMS_PATH: &'static str = "/etc/xray/bridge-params.json";

/// Where the newest release of Xray is found.
pub const XRAY_LATEST_RELEASE_URL: &'static str =
    "https://api.github.com/repos/XTLS/Xray-core/releases/latest";

// ---- messages to the screens ----

/// Why a URL was asked for.
#[derive(Debug, Clone, Copy, PartialEq, Eq, Structural)]
pub enum VlessUrlIntent {
    /// To be copied.
    Clipboard,
    /// To be shown as a QR code.
    Qr,
}

/// What the dashboard shows.
#[derive(Debug, Clone)]
pub struct DashboardData {
    pub users: Vec<XrayUser>,
    pub server_info: ServerInfo,
    pub container_uptime: String,
    pub latest_version: Option<String>,
    /// Whether the newest version was asked for this time.
    pub version_was_fetched: bool,
}

/// A user that was added, or whose URL was asked for.
#[derive(Debug, Clone)]
pub struct AddedUser {
    pub name: String,
    pub uuid: String,
    pub vless_url: String,
}

/// What came of something that was asked for.
#[derive(Debug)]
pub enum BackendMsg {
    DashboardData(Result<DashboardData, String>),
    /// The version that a tested connection gave.
    ConnectionTest(Result<String, String>),
    UserAdded(Result<AddedUser, String>),
    /// The id of the user that was deleted.
    UserDeleted(Result<String, String>),
    VlessUrl(Result<AddedUser, String>, VlessUrlIntent),
    /// The id of a user and its addresses, or the error.
    OnlineIps(Result<(String, Vec<String>), (String, String)>),
    DeployProgress(DeployStatus),
    DeployBot(Result<String, String>),
}

/// The parameters of the bridge.
#[derive(Debug, Clone)]
pub struct BridgeParams {
    pub host: String,
    pub port: u16,
    pub public_key: String,
    pub short_id: String,
    pub sni: String,
    pub path: String,
}

// ---- connecting ----

/// What the SSH configuration says of a host.
#[derive(Debug, Clone)]
pub struct SshHost {
    pub hostname: Option<String>,
    pub port: Option<u16>,
    pub user: Option<String>,
    pub identity_file: Option<String>,
}

/// A path with a leading `~/` in the home directory.
pub open spec fn expanded(path: Seq<char>, home: Seq<char>) -> Seq<char> {
    if "~/"@.is_prefix_of(path) {
        home + path.skip(1)
    } else {
        path
    }
}

/// A path, if there is one, with a leading `~/` in the home directory.
pub open spec fn expanded_opt(path: Option<Seq<char>>, home: Seq<char>) -> Option<Seq<char>> {
    match path {
        Some(p) => Some(expanded(p, home)),
        None => None,
    }
}

/// Expand a leading `~/` in the path of a key.
pub fn expand_key_path(path: Option<String>, home: &str) -> (r: Option<String>)
    ensures
        text::opt_text(r) == expanded_opt(text::opt_text(path), home@),
{
    match path {
        Some(p) => {
            if starts_with(&p, "~/") {
                proof {
                    reveal_strlit("~/");
                }
                let v = chars_of(&p);
                let rest = string_of(&v, 1, v.len());
                assert(rest@ =~= p@.skip(1));
                let mut s = home.to_owned();
                s.append(&rest);
                Some(s)
            } else {
                Some(p)
            }
        },
        None => None,
    }
}

/// Where and how to connect: host, port, user and key. An alias goes before a host; what the SSH
/// configuration says of the alias goes before the configuration, and an alias it does not know is
/// taken for a host.
pub open spec fn connection_of(c: ConfigV, known: Option<SshHost>, home: Seq<char>) -> Option<
    (Seq<char>, u16, Seq<char>, Option<Seq<char>>),
> {
    match c.ssh_host {
        Some(alias) => match known {
            Some(h) => Some(
                (
                    match h.hostname {
                        Some(n) => n@,
                        None => alias,
                    },
                    match h.port {
                        Some(p) => p,
                        None => c.port,
                    },
                    match h.user {
                        Some(u) => u@,
                        None => c.user,
                    },
                    expanded_opt(
                        match h.identity_file {
                            Some(k) => Some(k@),
                            None => c.key_path,
                        },
                        home,
                    ),
                ),
            ),
            None => Some((alias, c.port, c.user, expanded_opt(c.key_path, home))),
        },
        None => match c.host {
            Some(host) => Some((host, c.port, c.user, expanded_opt(c.key_path, home))),
            None => None,
        },
    }
}

/// Resolve where and how to connect. `known` is what the SSH configuration says of the alias.
pub fn resolve_connection_info(config: &Config, known: &Option<SshHost>, home: &str) -> (r: Result<
    (String, u16, String, Option<String>),
    AppError,
>)
    ensures
        match r {
            Ok(x) => connection_of(config@, *known, home@) == Some(
                (x.0@, x.1, x.2@, text::opt_text(x.3)),
            ),
            Err(e) => connection_of(config@, *known, home@) is None && error::is_config(
                e,
                "no host configured"@,
            ),
        },
{
    match &config.ssh_host {
        Some(alias) => match known {
            Some(h) => {
                let host: String = match &h.hostname {
                    Some(n) => n.clone(),
                    None => alias.clone(),
                };
                let port: u16 = match h.port {
                    Some(p) => p,
                    None => config.port,
                };
                let user: String = match &h.user {
                    Some(u) => u.clone(),
                    None => config.user.clone(),
                };
                let key: Option<String> = match &h.identity_file {
                    Some(k) => Some(k.clone()),
                    None => config.key_path.clone(),
                };
                Ok((host, port, user, expand_key_path(key, home)))
            },
            None => Ok(
                (
                    alias.clone(),
                    config.port,
                    config.user.clone(),
                    expand_key_path(config.key_path.clone(), home),
                ),
            ),
        },
        None => match &config.host {
            Some(host) => Ok(
                (
                    host.clone(),
                    config.port,
                    config.user.clone(),
                    expand_key_path(config.key_path.clone(), home),
                ),
            ),
            None => Err(AppError::Config("no host configured".to_owned())),
        },
    }
}

/// The address of a host: an IPv6 address stands in brackets.
pub fn ssh_addr(hostname: &str, port: u16) -> (r: String)
    ensures
        r@ == crate::xray::urls::url_host(hostname@) + ":"@ + decimal::dec(port as nat),
{
    let mut s: String = if contains_char(hostname, ':') {
        let mut h = "[".to_owned();
        h.append(hostname);
        h.append("]");
        h
    } else {
        hostname.to_owned()
    };
    s.append(":");
    push_u64(&mut s, port as u64);
    s
}

/// Whether there is somewhere to connect to is whether a connection can be resolved.
pub proof fn law_connection_info_suffices(c: ConfigV, known: Option<SshHost>, home: Seq<char>)
    ensures
        connection_of(c, known, home) is Some <==> (c.ssh_host is Some || c.host is Some),
{
}

// ---- answers ----

/// Build the command that reads the server's public key.
pub fn build_public_key_cmd() -> (r: String)
    ensures
        r@ == "cat "@ + PUBLIC_KEY_PATH@,
{
    let mut s = "cat ".to_owned();
    s.append(PUBLIC_KEY_PATH);
    s
}

/// The server's public key, from the answer.
pub fn read_public_key(answer: &CommandOutput) -> (r: Result<String, AppError>)
    ensures
        match r {
            Ok(k) => answer.success && k@ == text::trimmed(answer.stdout@),
            Err(e) => !answer.success && error::is_xray(
                e,
                client::with_stderr("failed to read public key: "@, *answer),
            ),
        },
{
    if answer.success {
        Ok(trim(&answer.stdout))
    } else {
        let mut s = "failed to read public key: ".to_owned();
        s.append(&trim(&answer.stderr));
        Err(AppError::Xray(s))
    }
}

/// Build the command that tells for how long the container has been up. The name is anchored, so
/// that no container whose name only contains it is found.
pub fn build_uptime_cmd(container: &str) -> (r: String)
    ensures
        r@ == "docker ps --filter 'name=^/"@ + container@ + "$' --format '{{.Status}}'"@,
{
    let mut s = "docker ps --filter 'name=^/".to_owned();
    s.append(container);
    s.append("$' --format '{{.Status}}'");
    s
}

/// For how long the container has been up, from the answer; nothing where there is none, and where
/// the command has failed.
pub fn container_uptime(answer: &Option<CommandOutput>) -> (r: String)
    ensures
        r@ == (match *answer {
            Some(o) => if o.success {
                text::trimmed(o.stdout@)
            } else {
                Seq::empty()
            },
            None => Seq::empty(),
        }),
{
    match answer {
        Some(o) => if o.success {
            trim(&o.stdout)
        } else {
            String::new()
        },
        None => String::new(),
    }
}

/// Build the command that asks for the newest release.
pub fn build_latest_version_cmd() -> (r: String)
    ensures
        r@ == "curl -sfL --max-time 3 -H 'Accept: application/vnd.github+json' "@
            + XRAY_LATEST_RELEASE_URL@,
{
    let mut s = "curl -sfL --max-time 3 -H 'Accept: application/vnd.github+json' ".to_owned();
    s.append(XRAY_LATEST_RELEASE_URL);
    s
}

/// A version: digits and dots, and at least one digit.
pub open spec fn is_version(s: Seq<char>) -> bool {
    &&& forall|i: int| 0 <= i < s.len() ==> text::is_digit(#[trigger] s[i]) || s[i] == '.'
    &&& exists|i: int| 0 <= i < s.len() && text::is_digit(#[trigger] s[i])
}

/// The version that a release is tagged with.
pub open spec fn release_version(parsed: Option<JsonV>) -> Option<Seq<char>> {
    match parsed {
        Some(j) => match json::str_at(j, "tag_name"@) {
            Some(tag) => {
                let v = match text::after_prefix(tag, "v"@) {
                    Some(rest) => rest,
                    None => tag,
                };
                if is_version(v) {
                    Some(v)
                } else {
                    None
                }
            },
            None => None,
        },
        None => None,
    }
}

fn text_is_version(s: &str) -> (r: bool)
    ensures
        r == is_version(s@),
{
    let v = chars_of(s);
    let mut digit: bool = false;
    let mut i: usize = 0;
    while i < v.len()
        invariant
            v@ == s@,
            i <= v@.len(),
            forall|j: int| 0 <= j < i ==> text::is_digit(#[trigger] v@[j]) || v@[j] == '.',
            digit == exists|j: int| 0 <= j < i && text::is_digit(#[trigger] v@[j]),
        decreases v.len() - i,
    {
        let c = v[i];
        if char_is_digit(c) {
            assert(text::is_digit(v@[i as int]));
            digit = true;
        } else if c != '.' {
            assert(!text::is_digit(s@[i as int]) && s@[i as int] != '.');
            return false;
        }
        i += 1;
    }
    digit
}

/// What is taken for the newest version holds digits and dots only, and a digit among them.
pub proof fn law_newest_version_is_a_version(parsed: Option<JsonV>)
    ensures
        release_version(parsed) matches Some(v) ==> is_version(v),
{
}

/// The version that a release is tagged with, given what the answer is as JSON.
pub fn release_version_from(parsed: &Option<Json>) -> (r: Option<String>)
    ensures
        text::opt_text(r) == release_version(answers::opt_view(*parsed)),
{
    match parsed {
        Some(j) => match j.str_at("tag_name") {
            Some(tag) => {
                let v: String = match strip_prefix(tag, "v") {
                    Some(rest) => rest,
                    None => tag.to_owned(),
                };
                if text_is_version(&v) {
                    Some(v)
                } else {
                    None
                }
            },
            None => None,
        },
        None => None,
    }
}

/// Parse the version of the newest release.
pub fn parse_xray_version_from_json(body: &str) -> (r: Option<String>)
    ensures
        text::opt_text(r) == release_version(answers::as_json(body@)),
{
    match Json::parse(body) {
        Ok(j) => release_version_from(&Some(j)),
        Err(_) => None,
    }
}

/// The newest version, from the answer.
pub fn latest_xray_version(answer: &Option<CommandOutput>) -> (r: Option<String>)
    ensures
        text::opt_text(r) == (match *answer {
            Some(o) => if o.success {
                release_version(answers::as_json(o.stdout@))
            } else {
                None
            },
            None => None,
        }),
{
    match answer {
        Some(o) => if o.success {
            parse_xray_version_from_json(&o.stdout)
        } else {
            None
        },
        None => None,
    }
}

/// The version that a tested connection gave, from the answer.
pub fn connection_test_result(answer: &CommandOutput) -> (r: Result<String, String>)
    ensures
        match r {
            Ok(v) => answer.success && v@ == text::trimmed(answer.stdout@),
            Err(e) => !answer.success && e@ == client::with_stderr(
                "xray version failed: "@,
                *answer,
            ),
        },
{
    if answer.success {
        Ok(trim(&answer.stdout))
    } else {
        let mut s = "xray version failed: ".to_owned();
        s.append(&trim(&answer.stderr));
        Err(s)
    }
}

/// A user with its traffic and its connections, as far as they were to be had.
pub fn enriched(user: XrayUser, stats: Option<TrafficStats>, online: Option<u32>) -> (r: XrayUser)
    ensures
        r@ == (types::UserV {
            stats: match stats {
                Some(s) => s,
                None => user.stats,
            },
            online_count: match online {
                Some(n) => n,
                None => user.online_count,
            },
            ..user@
        }),
{
    let mut u = user;
    if let Some(s) = stats {
        u.stats = s;
    }
    if let Some(n) = online {
        u.online_count = n;
    }
    u
}

// ---- URLs ----

/// The path of the xhttp transport of the main VLESS inbound.
pub open spec fn xhttp_path(raw: JsonV) -> Seq<char> {
    match types::vless_inbound(raw) {
        Some(ib) => match json::get2(ib, "streamSettings"@, "xhttpSettings"@) {
            Some(x) => match json::str_at(x, "path"@) {
                Some(p) => p,
                None => "/"@,
            },
            None => "/"@,
        },
        None => "/"@,
    }
}

fn xhttp_path_of(config: &ServerConfig) -> (r: String)
    ensures
        r@ == xhttp_path(config@),
{
    match config.find_vless_inbound() {
        Some(ib) => match ib.get("streamSettings") {
            Some(ss) => match ss.get("xhttpSettings") {
                Some(x) => match x.str_at("path") {
                    Some(p) => {
                        return p.to_owned();
                    },
                    None => {},
                },
                None => {},
            },
            None => {},
        },
        None => {},
    }
    "/".to_owned()
}

/// The port of a server's users; that of HTTPS where its configuration gives none.
pub open spec fn users_port(raw: JsonV) -> u16 {
    match routing::port_of(raw) {
        Some(n) => n,
        None => 443u16,
    }
}

/// Build what a user's URL is made of, from the server's configuration and its public key. A
/// configuration without Reality settings is at fault before a key that cannot be read.
pub fn build_vless_params(
    config: &ServerConfig,
    public_key: Result<String, AppError>,
    hostname: &str,
    uuid: &str,
) -> (r: Result<VlessUrlParams, AppError>)
    ensures
        match routing::reality_of(config@) {
            None => r matches Err(e) && error::is_xray(
                e,
                "no Reality settings in server config"@,
            ),
            Some(re) => match public_key {
                Err(k) => r == Err::<VlessUrlParams, AppError>(k),
                Ok(k) => r matches Ok(p) && p.uuid@ == uuid@ && p.host@ == hostname@ && p.port
                    == users_port(config@) && p.sni@ == re.0 && p.public_key == k && p.short_id@ == re.1 && p.path@
                    == xhttp_path(config@),
            },
        },
{
    match config.reality_settings() {
        None => Err(AppError::Xray("no Reality settings in server config".to_owned())),
        Some(reality) => match public_key {
            Err(e) => Err(e),
            Ok(key) => {
                let port: u16 = match config.vless_port() {
                    Some(n) => n,
                    None => 443,
                };
                Ok(
                    VlessUrlParams {
                        uuid: uuid.to_owned(),
                        host: hostname.to_owned(),
                        port,
                        sni: reality.sni,
                        public_key: key,
                        short_id: reality.short_id,
                        path: xhttp_path_of(config),
                    },
                )
            },
        },
    }
}

/// The first member that the parameters of the bridge lack.
pub open spec fn missing_param(j: JsonV) -> Option<Seq<char>> {
    if json::str_at(j, "host"@) is None {
        Some("host"@)
    } else if (match j.get("port"@) {
        Some(p) => p.as_u64(),
        None => None,
    }) is None {
        Some("port"@)
    } else if json::str_at(j, "publicKey"@) is None {
        Some("publicKey"@)
    } else if json::str_at(j, "shortId"@) is None {
        Some("shortId"@)
    } else if json::str_at(j, "sni"@) is None {
        Some("sni"@)
    } else if json::str_at(j, "path"@) is None {
        Some("path"@)
    } else {
        None
    }
}

/// The parameters are those of the value; only the lower 16 bits of the port are kept.
pub open spec fn params_are(p: BridgeParams, j: JsonV) -> bool {
    &&& json::str_at(j, "host"@) == Some(p.host@)
    &&& j.get("port"@) matches Some(n) && n.as_u64() matches Some(m) && p.port == m % 65536
    &&& json::str_at(j, "publicKey"@) == Some(p.public_key@)
    &&& json::str_at(j, "shortId"@) == Some(p.short_id@)
    &&& json::str_at(j, "sni"@) == Some(p.sni@)
    &&& json::str_at(j, "path"@) == Some(p.path@)
}

/// The message for a member that the parameters lack.
pub open spec fn missing_message(k: Seq<char>) -> Seq<char> {
    "bridge-params.json missing '"@ + k + "'"@
}

fn missing(k: &str) -> (r: AppError)
    ensures
        error::is_xray(r, missing_message(k@)),
{
    let mut s = "bridge-params.json missing '".to_owned();
    s.append(k);
    s.append("'");
    AppError::Xray(s)
}

/// The parameters of the bridge that a value stands for.
pub fn bridge_params_from(j: &Json) -> (r: Result<BridgeParams, AppError>)
    ensures
        match missing_param(j@) {
            Some(k) => r matches Err(e) && error::is_xray(e, missing_message(k)),
            None => r matches Ok(p) && params_are(p, j@),
        },
{
    let host: String = match j.str_at("host") {
        Some(s) => s.to_owned(),
        None => {
            return Err(missing("host"));
        },
    };
    let port: u16 = match j.get("port") {
        Some(p) => match p.as_u64() {
            Some(n) => (n % 65536) as u16,
            None => {
                return Err(missing("port"));
            },
        },
        None => {
            return Err(missing("port"));
        },
    };
    let public_key: String = match j.str_at("publicKey") {
        Some(s) => s.to_owned(),
        None => {
            return Err(missing("publicKey"));
        },
    };
    let short_id: String = match j.str_at("shortId") {
        Some(s) => s.to_owned(),
        None => {
            return Err(missing("shortId"));
        },
    };
    let sni: String = match j.str_at("sni") {
        Some(s) => s.to_owned(),
        None => {
            return Err(missing("sni"));
        },
    };
    let path: String = match j.str_at("path") {
        Some(s) => s.to_owned(),
        None => {
            return Err(missing("path"));
        },
    };
    Ok(BridgeParams { host, port, public_key, short_id, sni, path })
}

/// Build the command that reads the parameters of the bridge.
pub fn build_bridge_params_cmd() -> (r: String)
    ensures
        r@ == "cat "@ + BRIDGE_PARAMS_PATH@,
{
    let mut s = "cat ".to_owned();
    s.append(BRIDGE_PARAMS_PATH);
    s
}

/// The parameters of the bridge, from the answer.
pub fn read_bridge_params(answer: &CommandOutput) -> (r: Result<BridgeParams, AppError>)
    ensures
        if !answer.success {
            r matches Err(e) && error::is_xray(
                e,
                "failed to read bridge params from "@ + BRIDGE_PARAMS_PATH@ + ": "@ + text::trimmed(
                    answer.stderr@,
                ),
            )
        } else {
            match codec::json_of_text(text::trimmed(answer.stdout@)) {
                Err(m) => r matches Err(e) && error::is_xray(
                    e,
                    "failed to parse bridge params: "@ + m,
                ),
                Ok(j) => match missing_param(j) {
                    Some(k) => r matches Err(e) && error::is_xray(e, missing_message(k)),
                    None => r matches Ok(p) && params_are(p, j),
                },
            }
        },
{
    if !answer.success {
        let mut s = "failed to read bridge params from ".to_owned();
        s.append(BRIDGE_PARAMS_PATH);
        s.append(": ");
        s.append(&trim(&answer.stderr));
        return Err(AppError::Xray(s));
    }
    match Json::parse(&trim(&answer.stdout)) {
        Err(m) => {
            let mut s = "failed to parse bridge params: ".to_owned();
            s.append(&m);
            Err(AppError::Xray(s))
        },
        Ok(j) => bridge_params_from(&j),
    }
}

/// What the URL of a user of the bridge is made of.
pub fn bridge_url_params(bridge: BridgeParams, uuid: &str) -> (r: VlessUrlParams)
    ensures
        r.uuid@ == uuid@ && r.host == bridge.host && r.port == bridge.port && r.sni == bridge.sni
            && r.public_key == bridge.public_key && r.short_id == bridge.short_id && r.path
            == bridge.path,
{
    VlessUrlParams {
        uuid: uuid.to_owned(),
        host: bridge.host,
        port: bridge.port,
        sni: bridge.sni,
        public_key: bridge.public_key,
        short_id: bridge.short_id,
        path: bridge.path,
    }
}

/// The URL of a user over the bridge.
pub fn build_bridge_vless_url(bridge: BridgeParams, uuid: &str) -> (r: String)
    ensures
        r@ == urls::vless_link(
            uuid@,
            bridge.host@,
            bridge.port as nat,
            bridge.path@,
            bridge.sni@,
            bridge.public_key@,
            bridge.short_id@,
        ),
{
    generate_vless_url(&bridge_url_params(bridge, uuid))
}

/// Build a user's URL, from the server's configuration and its public key. A configuration without
/// Reality settings is at fault before a key that cannot be read.
pub fn build_vless_url(
    config: &ServerConfig,
    public_key: Result<String, AppError>,
    hostname: &str,
    uuid: &str,
) -> (r: Result<String, AppError>)
    ensures
        match routing::reality_of(config@) {
            None => r matches Err(e) && error::is_xray(
                e,
                "no Reality settings in server config"@,
            ),
            Some(re) => match public_key {
                Err(k) => r == Err::<String, AppError>(k),
                Ok(k) => r matches Ok(u) && u@ == urls::vless_link(
                    uuid@,
                    hostname@,
                    users_port(config@) as nat,
                    xhttp_path(config@),
                    re.0,
                    k@,
                    re.1,
                ),
            },
        },
{
    match build_vless_params(config, public_key, hostname, uuid) {
        Ok(p) => Ok(generate_vless_url(&p)),
        Err(e) => Err(e),
    }
}

/// Build a user's direct URL, which is the URL that the server itself gives.
pub fn build_direct_vless_url(
    config: &ServerConfig,
    public_key: Result<String, AppError>,
    hostname: &str,
    uuid: &str,
) -> (r: Result<String, AppError>)
    ensures
        match routing::reality_of(config@) {
            None => r matches Err(e) && error::is_xray(
                e,
                "no Reality settings in server config"@,
            ),
            Some(re) => match public_key {
                Err(k) => r == Err::<String, AppError>(k),
                Ok(k) => r matches Ok(u) && u@ == urls::vless_link(
                    uuid@,
                    hostname@,
                    users_port(config@) as nat,
                    xhttp_path(config@),
                    re.0,
                    k@,
                    re.1,
                ),
            },
        },
{
    build_vless_url(config, public_key, hostname, uuid)
}

/// Build a user's `vpn://` string, from the server's configuration and its public key.
pub fn build_amnezia_url(
    config: &ServerConfig,
    public_key: Result<String, AppError>,
    hostname: &str,
    uuid: &str,
) -> (r: Result<String, AppError>)
    ensures
        match routing::reality_of(config@) {
            None => r matches Err(e) && error::is_xray(
                e,
                "no Reality settings in server config"@,
            ),
            Some(re) => match public_key {
                Err(k) => r == Err::<String, AppError>(k),
                Ok(k) => exists|p: VlessUrlParams|
                    {
                        &&& r matches Ok(u)
                        &&& u@ == urls::vpn_url(#[trigger] urls::amnezia_data(p))
                        &&& p.uuid@ == uuid@ && p.host@ == hostname@ && p.port == users_port(
                            config@,
                        ) && p.sni@ == re.0 && p.public_key == k && p.short_id@ == re.1 && p.path@
                            == xhttp_path(config@)
                    },
            },
        },
{
    match build_vless_params(config, public_key, hostname, uuid) {
        Ok(p) => {
            let u = generate_amnezia_url(&p);
            assert(u@ == urls::vpn_url(urls::amnezia_data(p)));
            Ok(u)
        },
        Err(e) => Err(e),
    }
}

} // verus!
