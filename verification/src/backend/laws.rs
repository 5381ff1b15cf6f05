//! What holds of connections and URLs over all inputs.

use crate::backend;
use crate::backend::fetch::{added_user, Fetch};
use crate::backend::{
    bridge_params_from, bridge_url_params, build_amnezia_url, build_bridge_params_cmd,
    build_bridge_vless_url, build_direct_vless_url, build_latest_version_cmd, build_public_key_cmd,
    build_uptime_cmd, build_vless_params, build_vless_url, connection_test_result,
    container_uptime, enriched, expand_key_path, latest_xray_version,
    parse_xray_version_from_json, read_bridge_params, read_public_key, release_version_from, resolve_connection_info, ssh_addr, AddedUser,
    BridgeParams, SshHost,
};
use crate::config::Config;
use crate::decimal;
use crate::error::AppError;
use crate::json::codec;
use crate::json::{Json, JsonV};
use crate::text;
use crate::work::{Got, Need};
use crate::xray::client::{CommandOutput, ServerInfo};
use crate::xray::table;
use crate::xray::types;
use crate::xray::types::{ServerConfig, TrafficStats, VlessUrlParams, XrayUser};
use crate::xray::urls::{generate_amnezia_url, generate_vless_url};
use vstd::prelude::*;

verus! {

// ---- connecting ----

/// **An entry of the SSH configuration only overrides what it gives.** For an alias with an entry,
/// each of host, port, user and key is that of the entry where the entry has it; else the host is
/// the alias itself, and the port, the user and the key are those of the configuration.
pub proof fn law_ssh_entry_overrides_what_it_gives(
    config: Config,
    h: SshHost,
    home: &str,
    r: Result<(String, u16, String, Option<String>), AppError>,
    alias: String,
)
    requires
        config.ssh_host == Some(alias),
        call_ensures(resolve_connection_info, (&config, &Some(h), home), r),
    ensures
        r is Ok,
        match h.hostname {
            Some(n) => r->Ok_0.0@ == n@,
            None => r->Ok_0.0@ == alias@,
        },
        match h.port {
            Some(p) => r->Ok_0.1 == p,
            None => r->Ok_0.1 == config.port,
        },
        match h.user {
            Some(u) => r->Ok_0.2@ == u@,
            None => r->Ok_0.2@ == config.user@,
        },
        match (h.identity_file, config.key_path) {
            (Some(k), _) => r->Ok_0.3 matches Some(x) && in_home(k@, home@, x@),
            (None, Some(k)) => r->Ok_0.3 matches Some(x) && in_home(k@, home@, x@),
            (None, None) => r->Ok_0.3 is None,
        },
{
    reveal_strlit("~/");
    lemma_in_home(config, h, home@);
}

/// A path that begins with `~/` is the home directory followed by the slash and the rest; another
/// path is itself.
pub open spec fn in_home(path: Seq<char>, home: Seq<char>, x: Seq<char>) -> bool {
    if path.len() >= 2 && path[0] == '~' && path[1] == '/' {
        x.len() == home.len() + path.len() - 1 && x.take(home.len() as int) == home && x.skip(
            home.len() as int,
        ) == path.skip(1)
    } else {
        x == path
    }
}

proof fn lemma_expanded(path: Seq<char>, home: Seq<char>)
    ensures
        in_home(path, home, backend::expanded(path, home)),
{
    reveal_strlit("~/");
    let x = backend::expanded(path, home);
    if path.len() >= 2 && path[0] == '~' && path[1] == '/' {
        assert("~/"@.is_prefix_of(path));
        assert(x.take(home.len() as int) =~= home);
        assert(x.skip(home.len() as int) =~= path.skip(1));
    } else if "~/"@.is_prefix_of(path) {
        assert(path[0] == "~/"@[0] && path[1] == "~/"@[1]);
    }
}

proof fn lemma_in_home(config: Config, h: SshHost, home: Seq<char>)
    ensures
        h.identity_file matches Some(k) ==> in_home(k@, home, backend::expanded(k@, home)),
        config.key_path matches Some(k) ==> in_home(k@, home, backend::expanded(k@, home)),
{
    if let Some(k) = h.identity_file {
        lemma_expanded(k@, home);
    }
    if let Some(k) = config.key_path {
        lemma_expanded(k@, home);
    }
}

/// **Without an entry of the SSH configuration the configuration alone says where to connect.** An
/// alias goes before a host, and without either there is nowhere to connect to.
pub proof fn law_configuration_says_where_to_connect(
    config: Config,
    home: &str,
    r: Result<(String, u16, String, Option<String>), AppError>,
    known: Option<SshHost>,
)
    requires
        config.ssh_host is Some ==> known is None,
        call_ensures(resolve_connection_info, (&config, &known, home), r),
    ensures
        r is Ok <==> config.ssh_host is Some || config.host is Some,
        match (config.ssh_host, config.host) {
            (Some(alias), _) => r->Ok_0.0@ == alias@,
            (None, Some(host)) => r->Ok_0.0@ == host@,
            (None, None) => r matches Err(AppError::Config(m)) && m@ == "no host configured"@,
        },
        r matches Ok(x) ==> x.1 == config.port && x.2@ == config.user@ && match config.key_path {
            Some(k) => x.3 matches Some(y) && in_home(k@, home@, y@),
            None => x.3 is None,
        },
{
    if let Some(k) = config.key_path {
        lemma_expanded(k@, home@);
    }
}

// ---- the parameters of a user ----

proof fn lemma_main_inbound_from(s: Seq<JsonV>, i: int, k: int)
    requires
        0 <= k <= i < s.len(),
        s[i].get("protocol"@) == Some(JsonV::Str("vless"@)),
        forall|j: int|
            0 <= j < i ==> (#[trigger] s[j]).get("protocol"@) != Some(JsonV::Str("vless"@)),
    ensures
        types::first_vless(s, k) == Some(i),
    decreases i - k,
{
    if k < i {
        assert(s[k].get("protocol"@) != Some(JsonV::Str("vless"@)));
        lemma_main_inbound_from(s, i, k + 1);
    }
}

/// The first of the inbounds whose protocol is `vless` is the one that is read.
proof fn lemma_main_inbound(raw: JsonV, s: Seq<JsonV>, i: int)
    requires
        raw.get("inbounds"@) == Some(JsonV::Array(s)),
        0 <= i < s.len(),
        s[i].get("protocol"@) == Some(JsonV::Str("vless"@)),
        forall|j: int|
            0 <= j < i ==> (#[trigger] s[j]).get("protocol"@) != Some(JsonV::Str("vless"@)),
    ensures
        types::vless_inbound(raw) == Some(s[i]),
{
    lemma_main_inbound_from(s, i, 0);
}

/// **A user's URL leads where the server listens.** With `s[i]` the first VLESS inbound of the
/// configuration and `stream` its stream settings: the path is the text at `xhttpSettings.path`, or
/// `/` where there is none; the port is the number at `port`, or 443 where there is none that is a
/// port; the server name and the short id are the first of `realitySettings.serverNames` and of
/// `realitySettings.shortIds`. The host, the key and the id are those that were given.
pub proof fn law_params_are_the_servers(
    config: ServerConfig,
    key: Result<String, AppError>,
    hostname: &str,
    uuid: &str,
    r: Result<VlessUrlParams, AppError>,
    s: Seq<JsonV>,
    i: int,
    stream: JsonV,
)
    requires
        call_ensures(build_vless_params, (&config, key, hostname, uuid), r),
        config@.get("inbounds"@) == Some(JsonV::Array(s)),
        0 <= i < s.len(),
        s[i].get("protocol"@) == Some(JsonV::Str("vless"@)),
        forall|j: int|
            0 <= j < i ==> (#[trigger] s[j]).get("protocol"@) != Some(JsonV::Str("vless"@)),
        s[i].get("streamSettings"@) == Some(stream),
    ensures
        r matches Ok(p) ==> {
            &&& key matches Ok(k) && p.public_key@ == k@
            &&& p.uuid@ == uuid@
            &&& p.host@ == hostname@
            &&& match stream.get("xhttpSettings"@) {
                Some(x) => match x.get("path"@) {
                    Some(JsonV::Str(t)) => p.path@ == t,
                    _ => p.path@ == "/"@,
                },
                None => p.path@ == "/"@,
            }
            &&& match s[i].get("port"@) {
                Some(JsonV::UInt(n)) => p.port == (if n <= 65535 {
                    n as int
                } else {
                    443
                }),
                _ => p.port == 443,
            }
            &&& stream.get("realitySettings"@) matches Some(re) && {
                &&& re.get("serverNames"@) matches Some(JsonV::Array(names)) && names.len() > 0
                    && names[0] == JsonV::Str(p.sni@) && p.sni@.len() > 0
                &&& re.get("shortIds"@) matches Some(JsonV::Array(ids)) && ids.len() > 0 && ids[0]
                    == JsonV::Str(p.short_id@) && p.short_id@.len() > 0
            }
        },
        key is Ok ==> (r is Ok <==> match stream.get("realitySettings"@) {
            Some(re) => match (re.get("serverNames"@), re.get("shortIds"@)) {
                (Some(JsonV::Array(names)), Some(JsonV::Array(ids))) => names.len() > 0
                    && ids.len() > 0 && match (names[0], ids[0]) {
                    (JsonV::Str(n), JsonV::Str(t)) => n.len() > 0 && t.len() > 0,
                    _ => false,
                },
                _ => false,
            },
            None => false,
        }),
{
    lemma_main_inbound(config@, s, i);
}

/// **A server without a VLESS inbound has no URLs**: without an inbound of that protocol, building the
/// parameters fails.
pub proof fn law_no_inbound_no_params(
    config: ServerConfig,
    key: Result<String, AppError>,
    hostname: &str,
    uuid: &str,
    r: Result<VlessUrlParams, AppError>,
)
    requires
        call_ensures(build_vless_params, (&config, key, hostname, uuid), r),
        match config@.get("inbounds"@) {
            Some(JsonV::Array(s)) => forall|i: int|
                0 <= i < s.len() ==> (#[trigger] s[i]).get("protocol"@) != Some(
                    JsonV::Str("vless"@),
                ),
            _ => true,
        },
    ensures
        r matches Err(AppError::Xray(m)) && m@ == "no Reality settings in server config"@,
{
    if let Some(ib) = types::vless_inbound(config@) {
        let s = types::inbounds(config@);
        types::lemma_first_vless(s, 0);
        let i = types::first_vless(s, 0)->0;
        assert(config@.get("inbounds"@) == Some(JsonV::Array(s)));
        assert(s[i].get("protocol"@) == Some(JsonV::Str("vless"@)));
    }
}

/// **All that is made for a user is made of the same parameters**: the `vless://` URL, the direct
/// URL and the `vpn://` string of a user are those that the parameters of that user make, and where
/// there are no parameters each fails with the same error.
pub proof fn law_urls_agree(
    config: ServerConfig,
    key: Result<String, AppError>,
    hostname: &str,
    uuid: &str,
    params: Result<VlessUrlParams, AppError>,
    link: String,
    vpn: String,
    r: Result<String, AppError>,
    direct: Result<String, AppError>,
    amnezia: Result<String, AppError>,
)
    requires
        call_ensures(build_vless_params, (&config, key, hostname, uuid), params),
        call_ensures(build_vless_url, (&config, key, hostname, uuid), r),
        call_ensures(build_direct_vless_url, (&config, key, hostname, uuid), direct),
        call_ensures(build_amnezia_url, (&config, key, hostname, uuid), amnezia),
        params matches Ok(p) ==> call_ensures(generate_vless_url, (&p,), link) && call_ensures(
            generate_amnezia_url,
            (&p,),
            vpn,
        ),
    ensures
        match params {
            Ok(_) => {
                &&& r matches Ok(u) && u@ == link@
                &&& direct matches Ok(d) && d@ == link@
                &&& amnezia matches Ok(a) && a@ == vpn@
            },
            Err(e) => r is Err && direct is Err && amnezia is Err && same_error(e, r->Err_0)
                && same_error(e, direct->Err_0) && same_error(e, amnezia->Err_0),
        },
{
}

/// Two errors are the same: the same kind, with the same message.
pub open spec fn same_error(a: AppError, b: AppError) -> bool {
    match (a, b) {
        (AppError::Xray(m), AppError::Xray(n)) => m@ == n@,
        (AppError::Config(m), AppError::Config(n)) => m@ == n@,
        (AppError::Json(m), AppError::Json(n)) => m@ == n@,
        _ => a == b,
    }
}

// ---- answers ----

/// Digits and dots, with a digit among them.
pub open spec fn dotted_number(s: Seq<char>) -> bool {
    (forall|i: int| 0 <= i < s.len() ==> ('0' <= #[trigger] s[i] <= '9' || s[i] == '.')) && exists|
        i: int,
    |
        0 <= i < s.len() && '0' <= #[trigger] s[i] <= '9'
}

/// **The newest version is what the release is tagged with**, without the `v` before it. A tag that
/// holds anything but digits and dots gives none, and so does an answer without a tag.
pub proof fn law_newest_version_is_the_tag(j: Option<Json>, v: Seq<char>, r: Option<String>)
    requires
        call_ensures(release_version_from, (&j,), r),
    ensures
        j is None ==> r is None,
        j matches Some(x) ==> (x@.get("tag_name"@) == Some(JsonV::Str("v"@ + v)) && dotted_number(v)
            ==> (r matches Some(w) && w@ == v)),
        j matches Some(x) ==> (x@.get("tag_name"@) == Some(JsonV::Str(v)) && dotted_number(v) ==> (r
            matches Some(w) && w@ == v)),
        r matches Some(w) ==> dotted_number(w@) && j is Some && (j->0@.get("tag_name"@) == Some(
            JsonV::Str("v"@ + w@),
        ) || j->0@.get("tag_name"@) == Some(JsonV::Str(w@))),
{
    let p = "v"@;
    reveal_strlit("v");
    assert((p + v).skip(1) =~= v);
    assert(p.is_prefix_of(p + v)) by {
        assert((p + v).take(1) =~= p);
    }
    assert(dotted_number(v) ==> backend::is_version(v)) by {
        if dotted_number(v) {
            let i = choose|i: int| 0 <= i < v.len() && '0' <= #[trigger] v[i] <= '9';
            assert(text::is_digit(v[i]));
        }
    }
    if dotted_number(v) && p.is_prefix_of(v) {
        assert(v[0] == p[0]);
    }
    if let Some(w) = r {
        let tag = j->0@.get("tag_name"@)->0->Str_0;
        if p.is_prefix_of(tag) {
            assert(tag =~= p + tag.skip(1));
        }
        assert(backend::is_version(w@));
        let i = choose|i: int| 0 <= i < w@.len() && text::is_digit(#[trigger] w@[i]);
        assert('0' <= w@[i] <= '9');
    }
}

/// **A command that failed gives nothing**, and else its output without the blanks around it is what
/// was asked for; an error holds what the command said.
pub proof fn law_answers_are_the_output(
    o: CommandOutput,
    key: Result<String, AppError>,
    test: Result<String, String>,
    up: String,
    none: String,
)
    requires
        call_ensures(read_public_key, (&o,), key),
        call_ensures(connection_test_result, (&o,), test),
        call_ensures(container_uptime, (&Some(o),), up),
        call_ensures(container_uptime, (&Option::<CommandOutput>::None,), none),
    ensures
        o.success ==> {
            &&& key matches Ok(k) && k@ == text::trimmed(o.stdout@)
            &&& test matches Ok(v) && v@ == text::trimmed(o.stdout@)
            &&& up@ == text::trimmed(o.stdout@)
        },
        !o.success ==> {
            &&& key matches Err(AppError::Xray(m)) && m@ == "failed to read public key: "@
                + text::trimmed(o.stderr@)
            &&& test matches Err(m) && m@ == "xray version failed: "@ + text::trimmed(o.stderr@)
            &&& up@.len() == 0
        },
        none@.len() == 0,
{
}

/// **The newest version is read only from an answer**: a command that failed, or was not run, gives
/// none.
pub proof fn law_newest_version_needs_an_answer(
    o: CommandOutput,
    body: &str,
    v: Option<String>,
    r: Option<String>,
    none: Option<String>,
)
    requires
        body@ == o.stdout@,
        call_ensures(parse_xray_version_from_json, (body,), v),
        call_ensures(latest_xray_version, (&Some(o),), r),
        call_ensures(latest_xray_version, (&Option::<CommandOutput>::None,), none),
    ensures
        o.success ==> text::opt_text(r) == text::opt_text(v),
        !o.success ==> r is None,
        none is None,
{
}

/// **Each command reads its own file, and asks for the container of that very name.**
pub proof fn law_commands_read_what_they_are_for(
    container: &str,
    key: String,
    bridge: String,
    up: String,
    newest: String,
)
    requires
        call_ensures(build_public_key_cmd, (), key),
        call_ensures(build_bridge_params_cmd, (), bridge),
        call_ensures(build_uptime_cmd, (container,), up),
        call_ensures(build_latest_version_cmd, (), newest),
    ensures
        key@ == "cat "@ + "/opt/amnezia/xray/xray_public.key"@,
        bridge@ == "cat "@ + "/etc/xray/bridge-params.json"@,
        up@ == "docker ps --filter 'name=^/"@ + container@ + "$' --format '{{.Status}}'"@,
        newest@ == "curl -sfL --max-time 3 -H 'Accept: application/vnd.github+json' "@
            + "https://api.github.com/repos/XTLS/Xray-core/releases/latest"@,
{
}

/// **An address is the host and the port**; a host with colons stands in brackets.
pub proof fn law_address_is_host_and_port(host: &str, port: u16, r: String)
    requires
        call_ensures(ssh_addr, (host, port), r),
    ensures
        host@.contains(':') ==> r@ == "["@ + host@ + "]"@ + ":"@ + decimal::dec(port as nat),
        !host@.contains(':') ==> r@ == host@ + ":"@ + decimal::dec(port as nat),
{
}

/// **Only the figures of a user change**, each only where it was to be had.
pub proof fn law_figures_are_added(
    user: XrayUser,
    stats: Option<TrafficStats>,
    online: Option<u32>,
    r: XrayUser,
)
    requires
        call_ensures(enriched, (user, stats, online), r),
    ensures
        r.uuid@ == user.uuid@ && r.name@ == user.name@ && r.email@ == user.email@ && r.flow@
            == user.flow@,
        stats matches Some(s) ==> r.stats == s,
        stats is None ==> r.stats == user.stats,
        online matches Some(n) ==> r.online_count == n,
        online is None ==> r.online_count == user.online_count,
{
}

// ---- the bridge ----

/// **The parameters of the bridge are the members of their names.**
pub proof fn law_bridge_params_are_the_members(
    j: Json,
    host: Seq<char>,
    port: u64,
    key: Seq<char>,
    id: Seq<char>,
    sni: Seq<char>,
    path: Seq<char>,
    r: Result<BridgeParams, AppError>,
)
    requires
        call_ensures(bridge_params_from, (&j,), r),
        j@.get("host"@) == Some(JsonV::Str(host)),
        j@.get("port"@) == Some(JsonV::UInt(port)),
        j@.get("publicKey"@) == Some(JsonV::Str(key)),
        j@.get("shortId"@) == Some(JsonV::Str(id)),
        j@.get("sni"@) == Some(JsonV::Str(sni)),
        j@.get("path"@) == Some(JsonV::Str(path)),
    ensures
        r matches Ok(p) && p.host@ == host && p.port == port % 65536 && p.public_key@
            == key && p.short_id@ == id && p.sni@ == sni && p.path@ == path,
{
}

/// The member of that name is a text.
pub open spec fn text_member(j: JsonV, k: Seq<char>) -> bool {
    j.get(k) matches Some(JsonV::Str(_))
}

/// The member of that name is a number without a sign.
pub open spec fn number_member(j: JsonV, k: Seq<char>) -> bool {
    j.get(k) matches Some(JsonV::UInt(_))
}

/// The parameters are refused for the member of that name.
pub open spec fn names_missing(r: Result<BridgeParams, AppError>, k: Seq<char>) -> bool {
    r matches Err(AppError::Xray(m)) && m@ == "bridge-params.json missing '"@ + k + "'"@
}

/// **A member that is missing is told by its name**, the first of them.
pub proof fn law_missing_members_are_told(j: Json, r: Result<BridgeParams, AppError>)
    requires
        call_ensures(bridge_params_from, (&j,), r),
    ensures
        !text_member(j@, "host"@) ==> names_missing(r, "host"@),
        text_member(j@, "host"@) && !number_member(j@, "port"@) ==> names_missing(r, "port"@),
        text_member(j@, "host"@) && number_member(j@, "port"@) && !text_member(j@, "publicKey"@)
            ==> names_missing(r, "publicKey"@),
        text_member(j@, "host"@) && number_member(j@, "port"@) && text_member(j@, "publicKey"@)
            && !text_member(j@, "shortId"@) ==> names_missing(r, "shortId"@),
        text_member(j@, "host"@) && number_member(j@, "port"@) && text_member(j@, "publicKey"@)
            && text_member(j@, "shortId"@) && !text_member(j@, "sni"@) ==> names_missing(r, "sni"@),
        text_member(j@, "host"@) && number_member(j@, "port"@) && text_member(j@, "publicKey"@)
            && text_member(j@, "shortId"@) && text_member(j@, "sni"@) && !text_member(j@, "path"@)
            ==> names_missing(r, "path"@),
        r is Ok <==> text_member(j@, "host"@) && number_member(j@, "port"@) && text_member(
            j@,
            "publicKey"@,
        ) && text_member(j@, "shortId"@) && text_member(j@, "sni"@) && text_member(j@, "path"@),
{
}

/// **A URL over the bridge is made of what the bridge says, and of the id of the user.**
pub proof fn law_url_over_the_bridge_is_the_bridges(
    b: BridgeParams,
    uuid: &str,
    p: VlessUrlParams,
    link: String,
    r: String,
)
    requires
        call_ensures(bridge_url_params, (b, uuid), p),
        call_ensures(generate_vless_url, (&p,), link),
        call_ensures(build_bridge_vless_url, (b, uuid), r),
    ensures
        p.uuid@ == uuid@ && p.host@ == b.host@ && p.port == b.port && p.public_key@
            == b.public_key@ && p.short_id@ == b.short_id@ && p.sni@ == b.sni@ && p.path@
            == b.path@,
        r@ == link@,
{
}

// ---- the dashboard ----

/// **The dashboard shows what was fetched, each user with its own figures.** Figures are asked for with
/// the emails of the users; what could not be had leaves a user as it was; the newest version is asked
/// for only where that is wanted.
pub proof fn law_dashboard_shows_what_was_fetched(
    version: bool,
    users: Vec<XrayUser>,
    info: ServerInfo,
    x: Vec<(Option<TrafficStats>, Option<u32>)>,
    uptime: String,
    latest: Option<String>,
    i: int,
    a: Fetch,
    b: Fetch,
    c: Fetch,
    d: Fetch,
    e: Fetch,
    n: Option<Need>,
)
    requires
        call_ensures(
            Fetch::next,
            (Fetch::Users { fetch_version: version }, Got::Users(users)),
            a,
        ),
        call_ensures(Fetch::next, (a, Got::Info(info)), b),
        call_ensures(Fetch::need, (&b,), n),
        call_ensures(Fetch::next, (b, Got::Traffic(x)), c),
        x@.len() == users@.len(),
        call_ensures(Fetch::next, (c, Got::Text(uptime)), d),
        version ==> call_ensures(Fetch::next, (d, Got::Maybe(latest)), e),
        !version ==> e == d,
        0 <= i < users@.len(),
    ensures
        n matches Some(Need::Traffic(emails)) && emails@.len() == users@.len() && emails@[i]@
            == users@[i].email@,
        e matches Fetch::Done { result: Ok(r) } && {
            &&& r.server_info == info
            &&& r.container_uptime@ == uptime@
            &&& r.version_was_fetched == version
            &&& version ==> r.latest_version == latest
            &&& !version ==> r.latest_version is None
            &&& r.users@.len() == users@.len()
            &&& r.users@[i].uuid@ == users@[i].uuid@ && r.users@[i].name@ == users@[i].name@
                && r.users@[i].email@ == users@[i].email@
            &&& x@[i].0 matches Some(s) ==> r.users@[i].stats == s
            &&& x@[i].1 matches Some(k) ==> r.users@[i].online_count == k
            &&& x@[i].0 is None ==> r.users@[i].stats == users@[i].stats
            &&& x@[i].1 is None ==> r.users@[i].online_count == users@[i].online_count
        },
{
    let all = table::user_views(users@);
    assert(all[i] == users@[i]@);
    let emails = n->0->Traffic_0;
    assert(text::texts(emails@).len() == emails@.len());
    assert(text::texts(emails@)[i] == emails@[i]@);
    let u = c->Uptime_users@;
    assert(table::user_views(u).len() == u.len());
    assert(table::user_views(u)[i] == u[i]@);
    assert(e is Done);
}

/// **A fetch that failed says why**, and one begins with the API, unless that is known to be enabled.
pub proof fn law_fetch_begins_and_fails(
    f: Fetch,
    e: AppError,
    r: Fetch,
    version: bool,
    first: Fetch,
    later: Fetch,
    n: Option<Need>,
    m: Option<Need>,
)
    requires
        f is Api || f is Users || f is Info,
        call_ensures(Fetch::next, (f, Got::Failed(e)), r),
        call_ensures(Fetch::start, (false, version), first),
        call_ensures(Fetch::start, (true, version), later),
        call_ensures(Fetch::need, (&first,), n),
        call_ensures(Fetch::need, (&later,), m),
    ensures
        r matches Fetch::Done { result: Err(said) } && said@ == e.text(),
        n == Some(Need::EnsureApi),
        m == Some(Need::Users),
        first == (Fetch::Api { fetch_version: version }),
        later == (Fetch::Users { fetch_version: version }),
{
}

/// **A user was added all the same where its URL could not be made**: its name and its id are those
/// that it got.
pub proof fn law_added_user_is_the_one_added(
    name: &str,
    uuid: String,
    url: Result<String, AppError>,
    r: AddedUser,
)
    requires
        call_ensures(added_user, (name, uuid, url), r),
    ensures
        r.name@ == name@ && r.uuid@ == uuid@,
        url matches Ok(u) ==> r.vless_url@ == u@,
        url is Err ==> r.vless_url@.len() == 0,
{
}

/// **The parameters of the bridge are read from what the command printed**, without the blanks around
/// it; a command that failed is told with what it said.
pub proof fn law_bridge_params_are_read(
    o: CommandOutput,
    j: Json,
    p: Result<BridgeParams, AppError>,
    r: Result<BridgeParams, AppError>,
)
    requires
        call_ensures(read_bridge_params, (&o,), r),
        codec::json_of_text(text::trimmed(o.stdout@)) == Ok::<JsonV, Seq<char>>(j@),
        call_ensures(bridge_params_from, (&j,), p),
    ensures
        !o.success ==> (r matches Err(AppError::Xray(m)) && m@
            == "failed to read bridge params from "@ + "/etc/xray/bridge-params.json"@ + ": "@
            + text::trimmed(o.stderr@)),
        o.success ==> (p is Ok == r is Ok),
        o.success && p is Ok ==> p->Ok_0.host@ == r->Ok_0.host@ && p->Ok_0.port == r->Ok_0.port
            && p->Ok_0.public_key@ == r->Ok_0.public_key@ && p->Ok_0.short_id@
            == r->Ok_0.short_id@ && p->Ok_0.sni@ == r->Ok_0.sni@ && p->Ok_0.path@
            == r->Ok_0.path@,
        o.success && p is Err ==> same_error(p->Err_0, r->Err_0),
{
}

/// **A key in the home directory is found there**, and any other where its path says.
pub proof fn law_keys_are_found(
    path: String,
    rest: Seq<char>,
    home: &str,
    r: Option<String>,
    none: Option<String>,
)
    requires
        call_ensures(expand_key_path, (Some(path), home), r),
        call_ensures(expand_key_path, (Option::<String>::None, home), none),
    ensures
        path@ == "~/"@ + rest ==> (r matches Some(p) && p@ == home@ + "/"@ + rest),
        path@.len() > 0 && path@[0] != '~' ==> (r matches Some(p) && p@ == path@),
        none is None,
{
    reveal_strlit("~/");
    reveal_strlit("/");
    if path@ == "~/"@ + rest {
        assert(path@.take(2) =~= "~/"@);
        assert(path@.skip(1) =~= "/"@ + rest);
        assert(home@ + path@.skip(1) =~= home@ + "/"@ + rest);
    }
    if path@.len() > 0 && path@[0] != '~' && "~/"@.is_prefix_of(path@) {
        assert(path@[0] == "~/"@[0]);
    }
}

} // verus!
