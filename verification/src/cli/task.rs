//! What the command line asks for.

use crate::config::{Cli, Config};
use crate::text;
use crate::text::is_empty;
use vstd::prelude::*;

verus! {

/// Something that is asked for.
#[derive(Debug)]
pub enum Task {
    ListUsers,
    CheckServer,
    UserUrl(String),
    UserQr(String),
    UserVpn(String),
    OnlineStatus,
    ServerInfo,
    /// Run the bot with that token.
    TelegramBot(String),
    /// Run the agent with that secret.
    HttpAgent(String),
    /// Deploy the bot with that token.
    DeployBot(String),
    AddUser(String),
    DeleteUser { name: String, yes: bool },
    RenameUser { old_name: String, new_name: String },
    Backup,
    /// Restore that backup, or the newest one.
    Restore(Option<String>),
    Snapshot,
    SnapshotList,
    /// Restore that snapshot, or the last one.
    SnapshotRestore(Option<String>),
    UpgradeXray,
    /// Show the screens.
    Screens,
    /// It cannot be done: what is printed.
    Refused(Vec<String>),
}

pub enum TaskV {
    ListUsers,
    CheckServer,
    UserUrl(Seq<char>),
    UserQr(Seq<char>),
    UserVpn(Seq<char>),
    OnlineStatus,
    ServerInfo,
    TelegramBot(Seq<char>),
    HttpAgent(Seq<char>),
    DeployBot(Seq<char>),
    AddUser(Seq<char>),
    DeleteUser(Seq<char>, bool),
    RenameUser(Seq<char>, Seq<char>),
    Backup,
    Restore(Option<Seq<char>>),
    Snapshot,
    SnapshotList,
    SnapshotRestore(Option<Seq<char>>),
    UpgradeXray,
    Screens,
    Refused(Seq<Seq<char>>),
}

impl View for Task {
    type V = TaskV;

    open spec fn view(&self) -> TaskV {
        match self {
            Task::ListUsers => TaskV::ListUsers,
            Task::CheckServer => TaskV::CheckServer,
            Task::UserUrl(n) => TaskV::UserUrl(n@),
            Task::UserQr(n) => TaskV::UserQr(n@),
            Task::UserVpn(n) => TaskV::UserVpn(n@),
            Task::OnlineStatus => TaskV::OnlineStatus,
            Task::ServerInfo => TaskV::ServerInfo,
            Task::TelegramBot(t) => TaskV::TelegramBot(t@),
            Task::HttpAgent(s) => TaskV::HttpAgent(s@),
            Task::DeployBot(t) => TaskV::DeployBot(t@),
            Task::AddUser(n) => TaskV::AddUser(n@),
            Task::DeleteUser { name, yes } => TaskV::DeleteUser(name@, *yes),
            Task::RenameUser { old_name, new_name } => TaskV::RenameUser(old_name@, new_name@),
            Task::Backup => TaskV::Backup,
            Task::Restore(t) => TaskV::Restore(text::opt_text(*t)),
            Task::Snapshot => TaskV::Snapshot,
            Task::SnapshotList => TaskV::SnapshotList,
            Task::SnapshotRestore(t) => TaskV::SnapshotRestore(text::opt_text(*t)),
            Task::UpgradeXray => TaskV::UpgradeXray,
            Task::Screens => TaskV::Screens,
            Task::Refused(v) => TaskV::Refused(text::texts(v@)),
        }
    }
}

/// The token of the command line, else that of the configuration.
pub open spec fn token_of(cli: Cli, config: Config) -> Option<Seq<char>> {
    match cli.telegram_token {
        Some(t) => Some(t@),
        None => text::opt_text(config.telegram_token),
    }
}

/// Running the bot: on the host itself, with a token and an administrator.
pub open spec fn bot_task(cli: Cli, config: Config) -> TaskV {
    if !cli.local {
        TaskV::Refused(
            seq![
                "Error: --telegram-bot requires --local flag (must run on the VPS, not over SSH)"@,
                "Deploy the bot to VPS with: cargo run -- --deploy-bot --telegram-token <TOKEN>"@,
            ],
        )
    } else {
        match token_of(cli, config) {
            None => TaskV::Refused(
                seq!["Error: --telegram-token or TELEGRAM_TOKEN env var is required"@],
            ),
            Some(t) => if config.telegram_admin_chat_id is None {
                TaskV::Refused(
                    seq![
                        "Error: Admin ID required. Use --admin-id <your_telegram_id> or set ADMIN_ID env var."@,
                        "To find your Telegram ID, send /start to @userinfobot."@,
                    ],
                )
            } else {
                TaskV::TelegramBot(t)
            },
        }
    }
}

/// Deploying the bot: with a token and an administrator.
pub open spec fn deploy_task(cli: Cli, config: Config) -> TaskV {
    match token_of(cli, config) {
        None => TaskV::Refused(
            seq![
                "Error: --telegram-token or TELEGRAM_TOKEN env var is required for --deploy-bot"@,
            ],
        ),
        Some(t) => if config.telegram_admin_chat_id is None {
            TaskV::Refused(
                seq![
                    "Error: --admin-id is required for --deploy-bot."@,
                    "To find your Telegram ID, send /start to @userinfobot."@,
                ],
            )
        } else {
            TaskV::DeployBot(t)
        },
    }
}

/// The text, where it is not empty.
pub open spec fn given(s: String) -> Option<Seq<char>> {
    if s@.len() == 0 {
        None
    } else {
        Some(s@)
    }
}

/// The first of the things that the command line asks for; the screens where it asks for nothing.
pub open spec fn asked(cli: Cli, config: Config) -> TaskV {
    if cli.list_users {
        TaskV::ListUsers
    } else if cli.check_server {
        TaskV::CheckServer
    } else if let Some(n) = cli.user_url {
        TaskV::UserUrl(n@)
    } else if let Some(n) = cli.user_qr {
        TaskV::UserQr(n@)
    } else if let Some(n) = cli.user_vpn {
        TaskV::UserVpn(n@)
    } else if cli.online_status {
        TaskV::OnlineStatus
    } else if cli.server_info {
        TaskV::ServerInfo
    } else if cli.telegram_bot {
        bot_task(cli, config)
    } else if cli.http_agent {
        match cli.secret {
            Some(s) => TaskV::HttpAgent(s@),
            None => TaskV::Refused(seq!["Error: --secret is required with --http-agent"@]),
        }
    } else if cli.deploy_bot {
        deploy_task(cli, config)
    } else if let Some(n) = cli.add_user {
        TaskV::AddUser(n@)
    } else if let Some(n) = cli.delete_user {
        TaskV::DeleteUser(n@, cli.yes)
    } else if let Some(v) = cli.rename_user {
        TaskV::RenameUser(v@[0]@, v@[1]@)
    } else if cli.backup {
        TaskV::Backup
    } else if let Some(t) = cli.restore {
        TaskV::Restore(given(t))
    } else if cli.snapshot {
        TaskV::Snapshot
    } else if cli.snapshot_list {
        TaskV::SnapshotList
    } else if let Some(t) = cli.snapshot_restore {
        TaskV::SnapshotRestore(given(t))
    } else if cli.upgrade_xray {
        TaskV::UpgradeXray
    } else {
        TaskV::Screens
    }
}

fn refused(a: &str) -> (r: Task)
    ensures
        r@ == TaskV::Refused(seq![a@]),
{
    let mut v = text::no_texts();
    text::push_text(&mut v, a.to_owned());
    assert(text::texts(v@) =~= seq![a@]);
    Task::Refused(v)
}

fn refused2(a: &str, b: &str) -> (r: Task)
    ensures
        r@ == TaskV::Refused(seq![a@, b@]),
{
    let mut v = text::no_texts();
    text::push_text(&mut v, a.to_owned());
    text::push_text(&mut v, b.to_owned());
    assert(text::texts(v@) =~= seq![a@, b@]);
    Task::Refused(v)
}

fn token(cli: &Cli, config: &Config) -> (r: Option<String>)
    ensures
        text::opt_text(r) == token_of(*cli, *config),
{
    match &cli.telegram_token {
        Some(t) => Some(t.clone()),
        None => config.telegram_token.clone(),
    }
}

fn bot(cli: &Cli, config: &Config) -> (r: Task)
    ensures
        r@ == bot_task(*cli, *config),
{
    if !cli.local {
        return refused2(
            "Error: --telegram-bot requires --local flag (must run on the VPS, not over SSH)",
            "Deploy the bot to VPS with: cargo run -- --deploy-bot --telegram-token <TOKEN>",
        );
    }
    match token(cli, config) {
        None => refused("Error: --telegram-token or TELEGRAM_TOKEN env var is required"),
        Some(t) => if config.telegram_admin_chat_id.is_none() {
            refused2(
                "Error: Admin ID required. Use --admin-id <your_telegram_id> or set ADMIN_ID env var.",
                "To find your Telegram ID, send /start to @userinfobot.",
            )
        } else {
            Task::TelegramBot(t)
        },
    }
}

fn deployment(cli: &Cli, config: &Config) -> (r: Task)
    ensures
        r@ == deploy_task(*cli, *config),
{
    match token(cli, config) {
        None => refused(
            "Error: --telegram-token or TELEGRAM_TOKEN env var is required for --deploy-bot",
        ),
        Some(t) => if config.telegram_admin_chat_id.is_none() {
            refused2(
                "Error: --admin-id is required for --deploy-bot.",
                "To find your Telegram ID, send /start to @userinfobot.",
            )
        } else {
            Task::DeployBot(t)
        },
    }
}

fn non_empty(s: &String) -> (r: Option<String>)
    ensures
        text::opt_text(r) == given(*s),
{
    if is_empty(s) {
        None
    } else {
        Some(s.clone())
    }
}

/// What the command line asks for. A renaming comes with both names.
pub fn task_of(cli: &Cli, config: &Config) -> (r: Task)
    requires
        cli.rename_user matches Some(v) ==> v@.len() >= 2,
    ensures
        r@ == asked(*cli, *config),
{
    if cli.list_users {
        return Task::ListUsers;
    }
    if cli.check_server {
        return Task::CheckServer;
    }
    if let Some(n) = &cli.user_url {
        return Task::UserUrl(n.clone());
    }
    if let Some(n) = &cli.user_qr {
        return Task::UserQr(n.clone());
    }
    if let Some(n) = &cli.user_vpn {
        return Task::UserVpn(n.clone());
    }
    if cli.online_status {
        return Task::OnlineStatus;
    }
    if cli.server_info {
        return Task::ServerInfo;
    }
    if cli.telegram_bot {
        return bot(cli, config);
    }
    if cli.http_agent {
        return match &cli.secret {
            Some(s) => Task::HttpAgent(s.clone()),
            None => refused("Error: --secret is required with --http-agent"),
        };
    }
    if cli.deploy_bot {
        return deployment(cli, config);
    }
    if let Some(n) = &cli.add_user {
        return Task::AddUser(n.clone());
    }
    if let Some(n) = &cli.delete_user {
        return Task::DeleteUser { name: n.clone(), yes: cli.yes };
    }
    if let Some(v) = &cli.rename_user {
        return Task::RenameUser { old_name: v[0].clone(), new_name: v[1].clone() };
    }
    if cli.backup {
        return Task::Backup;
    }
    if let Some(t) = &cli.restore {
        return Task::Restore(non_empty(t));
    }
    if cli.snapshot {
        return Task::Snapshot;
    }
    if cli.snapshot_list {
        return Task::SnapshotList;
    }
    if let Some(t) = &cli.snapshot_restore {
        return Task::SnapshotRestore(non_empty(t));
    }
    if cli.upgrade_xray {
        return Task::UpgradeXray;
    }
    Task::Screens
}

/// **What is done was asked for, with the arguments that were given.** Each task comes of its own
/// option. A user is deleted without a question only with `--yes`, a backup or a snapshot is named
/// exactly where a name was given, and the bot and the agent run with the token and the secret that
/// were given.
pub proof fn law_task_was_asked_for(cli: Cli, config: Config, r: Task)
    requires
        cli.rename_user matches Some(v) ==> v@.len() >= 2,
        call_ensures(task_of, (&cli, &config), r),
    ensures
        match r {
            Task::ListUsers => cli.list_users,
            Task::CheckServer => cli.check_server,
            Task::UserUrl(n) => cli.user_url matches Some(x) && x@ == n@,
            Task::UserQr(n) => cli.user_qr matches Some(x) && x@ == n@,
            Task::UserVpn(n) => cli.user_vpn matches Some(x) && x@ == n@,
            Task::OnlineStatus => cli.online_status,
            Task::ServerInfo => cli.server_info,
            Task::TelegramBot(t) => cli.telegram_bot && cli.local
                && config.telegram_admin_chat_id is Some && (match cli.telegram_token {
                Some(x) => t@ == x@,
                None => config.telegram_token matches Some(x) && t@ == x@,
            }),
            Task::HttpAgent(t) => cli.http_agent && (cli.secret matches Some(x) && x@ == t@),
            Task::DeployBot(t) => cli.deploy_bot && config.telegram_admin_chat_id is Some && (
            match cli.telegram_token {
                Some(x) => t@ == x@,
                None => config.telegram_token matches Some(x) && t@ == x@,
            }),
            Task::AddUser(n) => cli.add_user matches Some(x) && x@ == n@,
            Task::DeleteUser { name, yes } => yes == cli.yes && (cli.delete_user matches Some(x)
                && x@ == name@),
            Task::RenameUser { old_name, new_name } => cli.rename_user matches Some(v) && v@[0]@
                == old_name@ && v@[1]@ == new_name@,
            Task::Backup => cli.backup,
            Task::Restore(t) => cli.restore matches Some(x) && (match t {
                Some(y) => y@ == x@ && x@.len() > 0,
                None => x@.len() == 0,
            }),
            Task::Snapshot => cli.snapshot,
            Task::SnapshotList => cli.snapshot_list,
            Task::SnapshotRestore(t) => cli.snapshot_restore matches Some(x) && (match t {
                Some(y) => y@ == x@ && x@.len() > 0,
                None => x@.len() == 0,
            }),
            Task::UpgradeXray => cli.upgrade_xray,
            Task::Screens => !cli.list_users && !cli.check_server && cli.user_url is None
                && cli.user_qr is None && cli.user_vpn is None && !cli.online_status
                && !cli.server_info && !cli.telegram_bot && !cli.http_agent && !cli.deploy_bot
                && cli.add_user is None && cli.delete_user is None && cli.rename_user is None
                && !cli.backup && cli.restore is None && !cli.snapshot && !cli.snapshot_list
                && cli.snapshot_restore is None && !cli.upgrade_xray,
            Task::Refused(_) => {
                ||| cli.telegram_bot && (!cli.local || cli.telegram_token is None
                    && config.telegram_token is None || config.telegram_admin_chat_id is None)
                ||| cli.http_agent && cli.secret is None
                ||| cli.deploy_bot && (cli.telegram_token is None && config.telegram_token is None
                    || config.telegram_admin_chat_id is None)
            },
        },
{
}

/// Something is asked for that is looked at before the bot and the agent are.
pub open spec fn asks_first(cli: Cli) -> bool {
    cli.list_users || cli.check_server || cli.user_url is Some || cli.user_qr is Some
        || cli.user_vpn is Some || cli.online_status || cli.server_info
}

/// **The bot, the agent and the deployment run only with what they need**: without it, and where
/// nothing else was asked for first, they are refused.
pub proof fn law_incomplete_tasks_are_refused(cli: Cli, config: Config, r: Task)
    requires
        cli.rename_user matches Some(v) ==> v@.len() >= 2,
        call_ensures(task_of, (&cli, &config), r),
        !asks_first(cli),
    ensures
        cli.telegram_bot ==> (r is TelegramBot <==> cli.local && (cli.telegram_token is Some
            || config.telegram_token is Some) && config.telegram_admin_chat_id is Some),
        cli.telegram_bot ==> r is TelegramBot || r is Refused,
        !cli.telegram_bot && cli.http_agent ==> (r is HttpAgent <==> cli.secret is Some),
        !cli.telegram_bot && cli.http_agent ==> r is HttpAgent || r is Refused,
        !cli.telegram_bot && !cli.http_agent && cli.deploy_bot ==> (r is DeployBot <==> (
        cli.telegram_token is Some || config.telegram_token is Some)
            && config.telegram_admin_chat_id is Some),
        !cli.telegram_bot && !cli.http_agent && cli.deploy_bot ==> r is DeployBot || r is Refused,
        !cli.telegram_bot && !cli.http_agent && !cli.deploy_bot ==> !(r is Refused),
{
}

/// Which options are given, in the order of the list of options.
pub open spec fn options_given(cli: Cli) -> Seq<bool> {
    seq![
        cli.list_users,
        cli.check_server,
        cli.user_url is Some,
        cli.user_qr is Some,
        cli.user_vpn is Some,
        cli.online_status,
        cli.server_info,
        cli.telegram_bot,
        cli.http_agent,
        cli.deploy_bot,
        cli.add_user is Some,
        cli.delete_user is Some,
        cli.rename_user is Some,
        cli.backup,
        cli.restore is Some,
        cli.snapshot,
        cli.snapshot_list,
        cli.snapshot_restore is Some,
        cli.upgrade_xray,
    ]
}

/// The task is that of the option at that place.
pub open spec fn task_of_option(t: Task, i: int) -> bool {
    match t {
        Task::ListUsers => i == 0,
        Task::CheckServer => i == 1,
        Task::UserUrl(_) => i == 2,
        Task::UserQr(_) => i == 3,
        Task::UserVpn(_) => i == 4,
        Task::OnlineStatus => i == 5,
        Task::ServerInfo => i == 6,
        Task::TelegramBot(_) => i == 7,
        Task::HttpAgent(_) => i == 8,
        Task::DeployBot(_) => i == 9,
        Task::AddUser(_) => i == 10,
        Task::DeleteUser { .. } => i == 11,
        Task::RenameUser { .. } => i == 12,
        Task::Backup => i == 13,
        Task::Restore(_) => i == 14,
        Task::Snapshot => i == 15,
        Task::SnapshotList => i == 16,
        Task::SnapshotRestore(_) => i == 17,
        Task::UpgradeXray => i == 18,
        Task::Screens => false,
        Task::Refused(_) => 7 <= i <= 9,
    }
}

/// **Of several options the first of the list is followed.**
pub proof fn law_first_option_is_followed(cli: Cli, config: Config, r: Task, i: int)
    requires
        cli.rename_user matches Some(v) ==> v@.len() >= 2,
        call_ensures(task_of, (&cli, &config), r),
        0 <= i < 19,
        options_given(cli)[i],
        forall|j: int| 0 <= j < i ==> !#[trigger] options_given(cli)[j],
    ensures
        task_of_option(r, i),
{
    let given = options_given(cli);
    assert(given.len() == 19);
    assert(i > 0 ==> !given[0]);
    assert(i > 1 ==> !given[1]);
    assert(i > 2 ==> !given[2]);
    assert(i > 3 ==> !given[3]);
    assert(i > 4 ==> !given[4]);
    assert(i > 5 ==> !given[5]);
    assert(i > 6 ==> !given[6]);
    assert(i > 7 ==> !given[7]);
    assert(i > 8 ==> !given[8]);
    assert(i > 9 ==> !given[9]);
    assert(i > 10 ==> !given[10]);
    assert(i > 11 ==> !given[11]);
    assert(i > 12 ==> !given[12]);
    assert(i > 13 ==> !given[13]);
    assert(i > 14 ==> !given[14]);
    assert(i > 15 ==> !given[15]);
    assert(i > 16 ==> !given[16]);
    assert(i > 17 ==> !given[17]);
}

/// The task is refused with these lines.
pub open spec fn refused_with(t: Task, lines: Seq<Seq<char>>) -> bool {
    t matches Task::Refused(v) && v@.len() == lines.len() && forall|i: int|
        0 <= i < lines.len() ==> (#[trigger] v@[i])@ == lines[i]
}

/// **What is missing is told**, first of all what the bot needs of the host.
pub proof fn law_missing_options_are_told(cli: Cli, config: Config, r: Task)
    requires
        cli.rename_user matches Some(v) ==> v@.len() >= 2,
        call_ensures(task_of, (&cli, &config), r),
        !asks_first(cli),
    ensures
        cli.telegram_bot && !cli.local ==> refused_with(
            r,
            seq![
                "Error: --telegram-bot requires --local flag (must run on the VPS, not over SSH)"@,
                "Deploy the bot to VPS with: cargo run -- --deploy-bot --telegram-token <TOKEN>"@,
            ],
        ),
        cli.telegram_bot && cli.local && cli.telegram_token is None && config.telegram_token is None
            ==> refused_with(
            r,
            seq!["Error: --telegram-token or TELEGRAM_TOKEN env var is required"@],
        ),
        cli.telegram_bot && cli.local && (cli.telegram_token is Some || config.telegram_token is Some)
            && config.telegram_admin_chat_id is None ==> refused_with(
            r,
            seq![
                "Error: Admin ID required. Use --admin-id <your_telegram_id> or set ADMIN_ID env var."@,
                "To find your Telegram ID, send /start to @userinfobot."@,
            ],
        ),
        !cli.telegram_bot && cli.http_agent && cli.secret is None ==> refused_with(
            r,
            seq!["Error: --secret is required with --http-agent"@],
        ),
        !cli.telegram_bot && !cli.http_agent && cli.deploy_bot && cli.telegram_token is None
            && config.telegram_token is None ==> refused_with(
            r,
            seq!["Error: --telegram-token or TELEGRAM_TOKEN env var is required for --deploy-bot"@],
        ),
        !cli.telegram_bot && !cli.http_agent && cli.deploy_bot && (cli.telegram_token is Some
            || config.telegram_token is Some) && config.telegram_admin_chat_id is None
            ==> refused_with(
            r,
            seq![
                "Error: --admin-id is required for --deploy-bot."@,
                "To find your Telegram ID, send /start to @userinfobot."@,
            ],
        ),
{
    if let Task::Refused(v) = r {
        assert(text::texts(v@).len() == v@.len());
        assert forall|i: int| 0 <= i < v@.len() implies (#[trigger] v@[i])@ == text::texts(
            v@,
        )[i] by {}
    }
}

} // verus!
