//! The configuration of the program and its command line.

use crate::error;
use crate::error::AppError;
use crate::text;
use crate::text::chars_of;
use vstd::prelude::*;

verus! {

pub const DEFAULT_SSH_PORT: u16 = 22;

pub const DEFAULT_SSH_USER: &'static str = "root";

pub const DEFAULT_CONTAINER: &'static str = "amnezia-xray";

pub const DEFAULT_BOT_IMAGE: &'static str = "ghcr.io/gaiverrr/amnezia-xray-admin:latest";

/// Where snapshots are kept on the host.
pub const DEFAULT_SNAPSHOT_HOST_DIR: &'static str = "/data/projects/xray-backup";

/// An ASCII letter or digit.
pub open spec fn is_alphanumeric(c: char) -> bool {
    'A' <= c <= 'Z' || 'a' <= c <= 'z' || text::is_digit(c)
}

/// A name that a container can have: at most 128 letters, digits, `_`, `.` and `-`, the first of
/// them a letter or a digit.
pub open spec fn container_name(s: Seq<char>) -> bool {
    &&& 0 < s.len() <= 128
    &&& is_alphanumeric(s[0])
    &&& forall|i: int|
        0 <= i < s.len() ==> is_alphanumeric(#[trigger] s[i]) || s[i] == '_' || s[i] == '.' || s[i]
            == '-'
}

fn char_is_alphanumeric(c: char) -> (r: bool)
    ensures
        r == is_alphanumeric(c),
{
    ('A' <= c && c <= 'Z') || ('a' <= c && c <= 'z') || ('0' <= c && c <= '9')
}

/// Whether a container can have that name.
pub fn is_valid_container_name(name: &str) -> (r: bool)
    ensures
        r == container_name(name@),
{
    let v = chars_of(name);
    if v.len() == 0 || v.len() > 128 || !char_is_alphanumeric(v[0]) {
        return false;
    }
    let mut i: usize = 0;
    while i < v.len()
        invariant
            v@ == name@,
            i <= v@.len(),
            forall|j: int|
                0 <= j < i ==> is_alphanumeric(#[trigger] v@[j]) || v@[j] == '_' || v@[j] == '.'
                    || v@[j] == '-',
        decreases v.len() - i,
    {
        let c = v[i];
        if !(char_is_alphanumeric(c) || c == '_' || c == '.' || c == '-') {
            return false;
        }
        i += 1;
    }
    true
}

/// The command line.
#[derive(Debug, Clone)]
pub struct Cli {
    /// SSH host (IP or hostname) to connect to.
    pub host: Option<String>,
    /// SSH port.
    pub port: Option<u16>,
    /// SSH user.
    pub user: Option<String>,
    /// Path to the SSH private key.
    pub key_path: Option<String>,
    /// Alias of a host in the SSH configuration.
    pub ssh_host: Option<String>,
    /// Name of the container that runs Xray.
    pub container: Option<String>,
    pub list_users: bool,
    pub check_server: bool,
    pub user_url: Option<String>,
    pub user_qr: Option<String>,
    pub user_vpn: Option<String>,
    pub online_status: bool,
    pub server_info: bool,
    /// Run on the host itself rather than over SSH.
    pub local: bool,
    pub telegram_bot: bool,
    pub telegram_token: Option<String>,
    pub deploy_bot: bool,
    /// Chat of the bot's administrator.
    pub admin_id: Option<i64>,
    pub backup: bool,
    pub restore: Option<String>,
    pub add_user: Option<String>,
    pub delete_user: Option<String>,
    pub rename_user: Option<Vec<String>>,
    /// Do not ask before a deletion.
    pub yes: bool,
    pub snapshot: bool,
    pub snapshot_restore: Option<String>,
    pub snapshot_list: bool,
    pub upgrade_xray: bool,
    pub snapshot_dir: Option<String>,
    pub http_agent: bool,
    /// Secret that the HTTP agent asks for.
    pub secret: Option<String>,
    pub agent_port: u16,
    pub bridge_agent_url: Option<String>,
}

/// The configuration.
#[derive(Debug, Clone, PartialEq, Eq)]
pub struct Config {
    pub host: Option<String>,
    pub port: u16,
    pub user: String,
    pub key_path: Option<String>,
    pub ssh_host: Option<String>,
    pub container: String,
    pub telegram_token: Option<String>,
    pub telegram_admin_chat_id: Option<i64>,
    pub bot_image: String,
    pub snapshot_dir: Option<String>,
    pub bridge_agent_url: Option<String>,
}

/// What a configuration says.
pub struct ConfigV {
    pub host: Option<Seq<char>>,
    pub port: u16,
    pub user: Seq<char>,
    pub key_path: Option<Seq<char>>,
    pub ssh_host: Option<Seq<char>>,
    pub container: Seq<char>,
    pub telegram_token: Option<Seq<char>>,
    pub telegram_admin_chat_id: Option<i64>,
    pub bot_image: Seq<char>,
    pub snapshot_dir: Option<Seq<char>>,
    pub bridge_agent_url: Option<Seq<char>>,
}

impl View for Config {
    type V = ConfigV;

    open spec fn view(&self) -> ConfigV {
        ConfigV {
            host: text::opt_text(self.host),
            port: self.port,
            user: self.user@,
            key_path: text::opt_text(self.key_path),
            ssh_host: text::opt_text(self.ssh_host),
            container: self.container@,
            telegram_token: text::opt_text(self.telegram_token),
            telegram_admin_chat_id: self.telegram_admin_chat_id,
            bot_image: self.bot_image@,
            snapshot_dir: text::opt_text(self.snapshot_dir),
            bridge_agent_url: text::opt_text(self.bridge_agent_url),
        }
    }
}

/// What a configuration says where nothing was configured.
pub open spec fn default_config() -> ConfigV {
    ConfigV {
        host: None,
        port: 22,
        user: DEFAULT_SSH_USER@,
        key_path: None,
        ssh_host: None,
        container: DEFAULT_CONTAINER@,
        telegram_token: None,
        telegram_admin_chat_id: None,
        bot_image: DEFAULT_BOT_IMAGE@,
        snapshot_dir: None,
        bridge_agent_url: None,
    }
}

impl Default for Config {
    fn default() -> (r: Config)
        ensures
            r@ == default_config(),
            container_name(r.container@),
    {
        proof {
            reveal_strlit("amnezia-xray");
        }
        Config {
            host: None,
            port: DEFAULT_SSH_PORT,
            user: DEFAULT_SSH_USER.to_owned(),
            key_path: None,
            ssh_host: None,
            container: DEFAULT_CONTAINER.to_owned(),
            telegram_token: None,
            telegram_admin_chat_id: None,
            bot_image: DEFAULT_BOT_IMAGE.to_owned(),
            snapshot_dir: None,
            bridge_agent_url: None,
        }
    }
}

/// What was given, else what was there.
pub open spec fn given_or<T>(given: Option<T>, there: Option<T>) -> Option<T> {
    match given {
        Some(x) => Some(x),
        None => there,
    }
}

/// The text that was given, else the text that was there.
pub open spec fn text_or(given: Option<String>, there: Seq<char>) -> Seq<char> {
    match given {
        Some(x) => x@,
        None => there,
    }
}

/// A configuration with the command line laid over it: what the command line gives takes
/// precedence, except a name that no container can have.
pub open spec fn merged(c: ConfigV, cli: Cli) -> ConfigV {
    ConfigV {
        host: given_or(text::opt_text(cli.host), c.host),
        port: match cli.port {
            Some(p) => p,
            None => c.port,
        },
        user: text_or(cli.user, c.user),
        key_path: given_or(text::opt_text(cli.key_path), c.key_path),
        ssh_host: given_or(text::opt_text(cli.ssh_host), c.ssh_host),
        container: match cli.container {
            Some(n) => if container_name(n@) {
                n@
            } else {
                c.container
            },
            None => c.container,
        },
        telegram_token: c.telegram_token,
        telegram_admin_chat_id: given_or(cli.admin_id, c.telegram_admin_chat_id),
        bot_image: c.bot_image,
        snapshot_dir: given_or(text::opt_text(cli.snapshot_dir), c.snapshot_dir),
        bridge_agent_url: given_or(text::opt_text(cli.bridge_agent_url), c.bridge_agent_url),
    }
}

/// The warning about a name that no container can have.
pub open spec fn container_warning(name: Seq<char>, used: Seq<char>) -> Seq<char> {
    "Warning: invalid container name '"@ + name + "', using '"@ + used + "'"@
}

/// The error about a name that no container can have.
pub open spec fn container_error(name: Seq<char>) -> Seq<char> {
    "invalid container name '"@ + name
        + "': must start with alphanumeric, then only alphanumeric, hyphen, underscore, and dot"@
}

impl Config {
    /// Where snapshots are kept on the host.
    pub fn snapshot_dir(&self) -> (r: &str)
        ensures
            r@ == text_or(self.snapshot_dir, DEFAULT_SNAPSHOT_HOST_DIR@),
    {
        match &self.snapshot_dir {
            Some(d) => d.as_str(),
            None => DEFAULT_SNAPSHOT_HOST_DIR,
        }
    }

    /// A configuration that was read from a file, unless its container cannot have that name.
    pub fn checked(self) -> (r: Result<Config, AppError>)
        ensures
            match r {
                Ok(c) => container_name(self.container@) && c == self,
                Err(e) => !container_name(self.container@) && error::is_config(
                    e,
                    container_error(self.container@),
                ),
            },
    {
        if is_valid_container_name(&self.container) {
            Ok(self)
        } else {
            let mut s = "invalid container name '".to_owned();
            s.append(&self.container);
            s.append(
                "': must start with alphanumeric, then only alphanumeric, hyphen, underscore, and dot",
            );
            Err(AppError::Config(s))
        }
    }

    /// Lays the command line over the configuration. The result is the warning about a name that no
    /// container can have, if it gives one.
    pub fn merge_cli(&mut self, cli: &Cli) -> (warning: Option<String>)
        ensures
            final(self)@ == merged(old(self)@, *cli),
            match cli.container {
                Some(n) => if container_name(n@) {
                    warning is None
                } else {
                    warning matches Some(w) && w@ == container_warning(n@, old(self)@.container)
                },
                None => warning is None,
            },
    {
        let mut warning: Option<String> = None;
        if cli.host.is_some() {
            self.host = cli.host.clone();
        }
        if let Some(port) = cli.port {
            self.port = port;
        }
        if let Some(user) = &cli.user {
            self.user = user.clone();
        }
        if cli.key_path.is_some() {
            self.key_path = cli.key_path.clone();
        }
        if cli.ssh_host.is_some() {
            self.ssh_host = cli.ssh_host.clone();
        }
        if cli.admin_id.is_some() {
            self.telegram_admin_chat_id = cli.admin_id;
        }
        if cli.snapshot_dir.is_some() {
            self.snapshot_dir = cli.snapshot_dir.clone();
        }
        if let Some(container) = &cli.container {
            if is_valid_container_name(container) {
                self.container = container.clone();
            } else {
                let mut w = "Warning: invalid container name '".to_owned();
                w.append(container);
                w.append("', using '");
                w.append(&self.container);
                w.append("'");
                warning = Some(w);
            }
        }
        if cli.bridge_agent_url.is_some() {
            self.bridge_agent_url = cli.bridge_agent_url.clone();
        }
        warning
    }

    /// Whether there is somewhere to connect to.
    pub fn has_connection_info(&self) -> (r: bool)
        ensures
            r == (self@.ssh_host is Some || self@.host is Some),
    {
        self.ssh_host.is_some() || self.host.is_some()
    }
}

/// A command line keeps a usable name of the container usable.
pub proof fn law_merge_keeps_container_name(c: ConfigV, cli: Cli)
    requires
        container_name(c.container),
    ensures
        container_name(merged(c, cli).container),
{
}

/// Laying the same command line over a configuration twice is laying it over once.
pub proof fn law_merge_is_idempotent(c: ConfigV, cli: Cli)
    ensures
        merged(merged(c, cli), cli) == merged(c, cli),
{
}

/// **The command line overrides what it gives, and nothing else.** Each of host, port, user, key,
/// alias, administrator, snapshot directory and agent is that of the command line where it gives
/// one, else the one that was there; the container is the one that was given if a container can be
/// called so. The token and the image of the bot stay.
pub proof fn law_command_line_overrides_what_it_gives(c: ConfigV, cli: Cli)
    ensures
        match cli.host {
            Some(x) => merged(c, cli).host == Some(x@),
            None => merged(c, cli).host == c.host,
        },
        match cli.port {
            Some(x) => merged(c, cli).port == x,
            None => merged(c, cli).port == c.port,
        },
        match cli.user {
            Some(x) => merged(c, cli).user == x@,
            None => merged(c, cli).user == c.user,
        },
        match cli.key_path {
            Some(x) => merged(c, cli).key_path == Some(x@),
            None => merged(c, cli).key_path == c.key_path,
        },
        match cli.ssh_host {
            Some(x) => merged(c, cli).ssh_host == Some(x@),
            None => merged(c, cli).ssh_host == c.ssh_host,
        },
        match cli.admin_id {
            Some(x) => merged(c, cli).telegram_admin_chat_id == Some(x),
            None => merged(c, cli).telegram_admin_chat_id == c.telegram_admin_chat_id,
        },
        match cli.snapshot_dir {
            Some(x) => merged(c, cli).snapshot_dir == Some(x@),
            None => merged(c, cli).snapshot_dir == c.snapshot_dir,
        },
        match cli.bridge_agent_url {
            Some(x) => merged(c, cli).bridge_agent_url == Some(x@),
            None => merged(c, cli).bridge_agent_url == c.bridge_agent_url,
        },
        match cli.container {
            Some(x) => merged(c, cli).container == x@ || merged(c, cli).container == c.container,
            None => merged(c, cli).container == c.container,
        },
        merged(c, cli).telegram_token == c.telegram_token,
        merged(c, cli).bot_image == c.bot_image,
{
}

/// **A container is named as Docker allows it**: by one to 128 ASCII letters, digits, `_`, `.` and
/// `-`, of which the first is a letter or a digit. Such a name on the command line is taken over.
pub proof fn law_container_names(name: &str, r: bool, c: ConfigV, cli: Cli, given: String)
    requires
        call_ensures(is_valid_container_name, (name,), r),
        cli.container == Some(given),
        given@ == name@,
    ensures
        r <==> {
            &&& 1 <= name@.len() <= 128
            &&& name@[0] != '_' && name@[0] != '.' && name@[0] != '-'
            &&& forall|i: int|
                0 <= i < name@.len() ==> {
                    ||| 'a' <= #[trigger] name@[i] <= 'z'
                    ||| 'A' <= name@[i] <= 'Z'
                    ||| '0' <= name@[i] <= '9'
                    ||| name@[i] == '_'
                    ||| name@[i] == '.'
                    ||| name@[i] == '-'
                }
        },
        merged(c, cli).container == (if r {
            name@
        } else {
            c.container
        }),
{
    if 0 < name@.len() {
        assert(is_alphanumeric(name@[0]) || name@[0] == '_' || name@[0] == '.' || name@[0] == '-'
            || !container_name(name@));
    }
    if container_name(name@) {
        assert(is_alphanumeric(name@[0]));
    }
    assert forall|i: int|
        0 <= i < name@.len() && ('a' <= #[trigger] name@[i] <= 'z' || 'A' <= name@[i] <= 'Z' || '0'
            <= name@[i] <= '9') implies is_alphanumeric(name@[i]) by {}
}

/// **Snapshots are kept where the configuration says**, and in `/data/projects/xray-backup` where it
/// says nothing.
pub proof fn law_snapshots_are_kept_where_configured(c: Config, r: &str)
    requires
        call_ensures(Config::snapshot_dir, (&c,), r),
    ensures
        match c.snapshot_dir {
            Some(d) => r@ == d@,
            None => r@ == "/data/projects/xray-backup"@,
        },
{
}

/// **A configuration is taken from a file where its container can have that name**, as it is, and
/// refused elsewhere.
pub proof fn law_configuration_is_checked(
    c: Config,
    name: &str,
    valid: bool,
    r: Result<Config, AppError>,
    there: bool,
)
    requires
        name@ == c.container@,
        call_ensures(is_valid_container_name, (name,), valid),
        call_ensures(Config::checked, (c,), r),
        call_ensures(Config::has_connection_info, (&c,), there),
    ensures
        valid ==> (r matches Ok(d) && d == c),
        !valid ==> (r matches Err(AppError::Config(m)) && m@ == "invalid container name '"@
            + c.container@
            + "': must start with alphanumeric, then only alphanumeric, hyphen, underscore, and dot"@),
        there == (c.host is Some || c.ssh_host is Some),
{
    assert(c@.ssh_host is Some == c.ssh_host is Some);
    assert(c@.host is Some == c.host is Some);
}

/// **What the command line gives goes before the configuration**, and what it does not give stays; a name
/// that no container can have is warned of, and not used.
pub proof fn law_command_line_is_laid_over(
    c: &mut Config,
    cli: Cli,
    name: &str,
    valid: bool,
    warning: Option<String>,
)
    requires
        call_ensures(Config::merge_cli, (c, &cli), warning),
        cli.container matches Some(n) ==> name@ == n@,
        call_ensures(is_valid_container_name, (name,), valid),
    ensures
        cli.port matches Some(p) ==> final(c).port == p,
        cli.port is None ==> final(c).port == old(c).port,
        cli.user matches Some(u) ==> final(c).user@ == u@,
        cli.user is None ==> final(c).user@ == old(c).user@,
        cli.host matches Some(h) ==> final(c)@.host == Some(h@),
        cli.host is None ==> final(c)@.host == old(c)@.host,
        cli.container is Some && valid ==> final(c).container@ == name@ && warning is None,
        cli.container is Some && !valid ==> final(c).container@ == old(c).container@ && (warning
            matches Some(w) && w@ == "Warning: invalid container name '"@ + name@ + "', using '"@
            + old(c).container@ + "'"@),
        cli.container is None ==> final(c).container@ == old(c).container@ && warning is None,
{
    assert(final(c)@ == merged(old(c)@, cli));
    assert(final(c)@.port == final(c).port && final(c)@.user == final(c).user@
        && final(c)@.container == final(c).container@);
}

} // verus!
