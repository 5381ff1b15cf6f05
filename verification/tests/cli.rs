use amnezia_xray_admin::backend::BridgeParams;
use amnezia_xray_admin::cli::host::{looks_like_ip, Answer, Lookup};
use amnezia_xray_admin::cli::job::{
    cli_add_user, cli_backup, cli_check_server, cli_deploy_bot, cli_snapshot, cli_telegram_bot,
    connecting_line, Job, Line, Step,
};
use amnezia_xray_admin::cli::tables::{list_online, list_users, who_is_online};
use amnezia_xray_admin::cli::task::{task_of, Task};
use amnezia_xray_admin::config::{Cli, Config};
use amnezia_xray_admin::error::AppError;
use amnezia_xray_admin::work::{
    emails_of, place_of_id, sum_of, uuid_of_name, Got, Need, SnapshotInfo, UpgradeResult,
};
use amnezia_xray_admin::xray::client::ServerInfo;
use amnezia_xray_admin::xray::table::ClientsTable;
use amnezia_xray_admin::xray::types::{ServerConfig, TrafficStats, VlessUrlParams, XrayUser};
use amnezia_xray_admin::xray::urls::generate_amnezia_url;

fn user(id: &str, name: &str) -> XrayUser {
    XrayUser {
        uuid: id.to_string(),
        name: name.to_string(),
        email: format!("{}@vpn", name),
        flow: String::new(),
        stats: TrafficStats { uplink: 0, downlink: 0 },
        online_count: 0,
    }
}

fn two() -> Vec<XrayUser> {
    vec![user("0123456789", "alice"), user("abcdefghij", "")]
}

fn users() -> Got {
    Got::Users(two())
}

fn text(s: &str) -> Got {
    Got::Text(s.to_string())
}

fn error(m: &str) -> Got {
    Got::Failed(AppError::Xray(m.to_string()))
}

fn info(version: &str) -> Got {
    Got::Info(ServerInfo { version: version.to_string(), uplink: 1024, downlink: 0 })
}

fn print(s: &str) -> Line {
    Line::Print(s.to_string())
}

fn note(s: &str) -> Line {
    Line::Note(s.to_string())
}

/// Goes on with a command that says nothing yet.
fn on(s: Step) -> Job {
    assert!(s.lines.is_empty(), "{:?}", s.lines);
    s.job
}

fn ended(s: Step) -> Vec<Line> {
    assert!(matches!(s.job, Job::Done), "{:?}", s.job);
    s.lines
}

fn failed(s: Step) -> String {
    match s.job {
        Job::Failed { error } => error.message().to_string(),
        other => panic!("{:?}", other),
    }
}

fn plain() -> Cli {
    Cli {
        host: None,
        port: None,
        user: None,
        key_path: None,
        ssh_host: None,
        container: None,
        list_users: false,
        check_server: false,
        user_url: None,
        user_qr: None,
        user_vpn: None,
        online_status: false,
        server_info: false,
        local: false,
        telegram_bot: false,
        telegram_token: None,
        deploy_bot: false,
        admin_id: None,
        backup: false,
        restore: None,
        add_user: None,
        rename_user: None,
        delete_user: None,
        yes: false,
        snapshot: false,
        snapshot_restore: None,
        snapshot_list: false,
        upgrade_xray: false,
        snapshot_dir: None,
        http_agent: false,
        secret: None,
        agent_port: 9090,
        bridge_agent_url: None,
    }
}

fn refusal(cli: &Cli, config: &Config) -> Vec<String> {
    match task_of(cli, config) {
        Task::Refused(lines) => lines,
        other => panic!("{:?}", other),
    }
}

#[test]
fn without_a_command_the_screens_are_shown() {
    assert!(matches!(task_of(&plain(), &Config::default()), Task::Screens));
}

#[test]
fn the_first_command_wins() {
    let cli = Cli { list_users: true, check_server: true, backup: true, ..plain() };
    assert!(matches!(task_of(&cli, &Config::default()), Task::ListUsers));
    let cli = Cli { user_url: Some("a".to_string()), backup: true, ..plain() };
    assert!(matches!(task_of(&cli, &Config::default()), Task::UserUrl(n) if n == "a"));
}

#[test]
fn an_empty_argument_means_the_latest() {
    let restore = |s: &str| Cli { restore: Some(s.to_string()), ..plain() };
    assert!(matches!(task_of(&restore(""), &Config::default()), Task::Restore(None)));
    assert!(
        matches!(task_of(&restore("t"), &Config::default()), Task::Restore(Some(t)) if t == "t")
    );
    let cli = Cli { snapshot_restore: Some(String::new()), ..plain() };
    assert!(matches!(task_of(&cli, &Config::default()), Task::SnapshotRestore(None)));
}

#[test]
fn the_bot_runs_on_the_server_with_a_token_and_an_admin() {
    let remote = Cli { telegram_bot: true, ..plain() };
    let here = Cli { telegram_bot: true, local: true, ..plain() };
    let config = Config::default();
    assert_eq!(
        refusal(&remote, &config)[0],
        "Error: --telegram-bot requires --local flag (must run on the VPS, not over SSH)"
    );
    assert_eq!(
        refusal(&here, &config),
        vec!["Error: --telegram-token or TELEGRAM_TOKEN env var is required"]
    );
    let config = Config { telegram_token: Some("c".to_string()), ..config };
    assert_eq!(
        refusal(&here, &config),
        vec![
            "Error: Admin ID required. Use --admin-id <your_telegram_id> or set ADMIN_ID env var.",
            "To find your Telegram ID, send /start to @userinfobot."
        ]
    );
    let config = Config { telegram_admin_chat_id: Some(1), ..config };
    assert!(matches!(task_of(&here, &config), Task::TelegramBot(t) if t == "c"));
    let here = Cli { telegram_token: Some("a".to_string()), ..here };
    assert!(matches!(task_of(&here, &config), Task::TelegramBot(t) if t == "a"));
}

#[test]
fn a_deployment_needs_a_token_and_an_admin() {
    let cli = Cli { deploy_bot: true, ..plain() };
    let config = Config::default();
    assert_eq!(
        refusal(&cli, &config),
        vec!["Error: --telegram-token or TELEGRAM_TOKEN env var is required for --deploy-bot"]
    );
    let config = Config { telegram_token: Some("c".to_string()), ..config };
    assert_eq!(
        refusal(&cli, &config),
        vec![
            "Error: --admin-id is required for --deploy-bot.",
            "To find your Telegram ID, send /start to @userinfobot."
        ]
    );
    let config = Config { telegram_admin_chat_id: Some(1), ..config };
    assert!(matches!(task_of(&cli, &config), Task::DeployBot(t) if t == "c"));
}

#[test]
fn the_agent_needs_its_secret() {
    let cli = Cli { http_agent: true, ..plain() };
    assert_eq!(
        refusal(&cli, &Config::default()),
        vec!["Error: --secret is required with --http-agent"]
    );
    let cli = Cli { secret: Some("k".to_string()), ..cli };
    assert!(matches!(task_of(&cli, &Config::default()), Task::HttpAgent(s) if s == "k"));
}

#[test]
fn users_are_named_in_commands() {
    let config = Config::default();
    let cli = Cli { delete_user: Some("a".to_string()), yes: true, ..plain() };
    assert!(
        matches!(task_of(&cli, &config), Task::DeleteUser { name, yes } if name == "a" && yes)
    );
    let cli = Cli { rename_user: Some(vec!["a".to_string(), "b".to_string()]), ..plain() };
    assert!(
        matches!(task_of(&cli, &config), Task::RenameUser { old_name, new_name } if old_name == "a" && new_name == "b")
    );
    let cli = Cli { add_user: Some("a".to_string()), ..plain() };
    assert!(matches!(task_of(&cli, &config), Task::AddUser(n) if n == "a"));
}

#[test]
fn the_connection_is_announced() {
    let mut config = Config::default();
    assert_eq!(connecting_line(&config, "root", 22), "Connecting to root@?:22...");
    config.host = Some("h".to_string());
    assert_eq!(connecting_line(&config, "root", 22), "Connecting to root@h:22...");
    config.ssh_host = Some("alias".to_string());
    assert_eq!(connecting_line(&config, "me", 2222), "Connecting to me@alias:2222...");
}

#[test]
fn users_are_listed_in_columns() {
    let job = on(Job::List.next(users()));
    assert!(matches!(job.need(), Some(Need::Traffic(e)) if e == ["alice@vpn", "@vpn"]));
    let lines = ended(job.next(Got::Traffic(vec![
        (Some(TrafficStats { uplink: 1536, downlink: 0 }), Some(2)),
        (None, None),
    ])));
    assert_eq!(
        lines,
        vec![
            print("NAME                           UUID       UPLOAD       DOWNLOAD     ONLINE  "),
            print(&"-".repeat(72)),
            print("alice                          01234567   1.5 KB       0 B          ● 2     "),
            print("abcdefgh                       abcdefgh   0 B          0 B          ○       "),
        ]
    );
    assert_eq!(list_users(&Vec::new(), &Vec::new()), vec!["No users found."]);
}

#[test]
fn connections_are_listed_with_their_addresses() {
    let job = on(on(Job::Online.next(users())).next(Got::Counts(vec![Some(2), Some(0)])));
    assert!(matches!(job.need(), Some(Need::Ips(e)) if e == ["alice@vpn"]));
    let ips = vec!["1.1.1.1".to_string(), "2.2.2.2".to_string()];
    let lines = ended(job.next(Got::Ips(vec![Some(ips)])));
    assert_eq!(
        lines,
        vec![
            print("NAME                           ONLINE   IPs"),
            print(&"-".repeat(60)),
            print("alice                          ● 2      1.1.1.1, 2.2.2.2"),
            print("abcdefgh                       ○        -"),
        ]
    );
    assert_eq!(ended(Job::Online.next(Got::Users(Vec::new()))), vec![print("No users found.")]);
    assert_eq!(who_is_online(&two(), &vec![None, Some(1)]), vec!["@vpn"]);
    assert_eq!(list_online(&two(), &vec![Some(1), None], &vec![None]).len(), 4);
}

#[test]
fn the_server_is_checked() {
    let s = cli_check_server();
    assert_eq!(s.lines, vec![note("Checking API configuration...")]);
    let s = s.job.next(Got::Yes(false));
    assert_eq!(s.lines, vec![note("API already configured.")]);
    let job = on(on(s.job.next(users())).next(info("1.0")));
    assert_eq!(
        ended(job.next(Got::Yes(true))),
        vec![print("API enabled, 2 users, xray v1.0")]
    );
    let s = cli_check_server().job.next(Got::Yes(true));
    assert_eq!(
        s.lines,
        vec![note("API was not configured — enabled and container restarted.")]
    );
    let job = on(on(s.job.next(users())).next(info("1.0")));
    assert_eq!(
        ended(job.next(error("x"))),
        vec![print("API degraded (stats API unreachable), 2 users, xray v1.0")]
    );
}

#[test]
fn the_server_is_described() {
    let job = |version: &str, probe: Got| {
        let job = on(on(Job::Info.next(info(version))).next(users()));
        on(job.next(probe))
    };
    let lines = ended(on(job("1.0", Got::Yes(true)).next(text(""))).next(Got::Maybe(None)));
    assert_eq!(
        lines,
        vec![
            print("Xray:           v1.0"),
            print("API status:     enabled"),
            print("Uptime:         unknown"),
            print("Users:          2"),
            print("Total upload:   1.0 KB"),
            print("Total download: 0 B"),
        ]
    );
    let latest = |v: &str| Got::Maybe(Some(v.to_string()));
    let lines = ended(on(job("1.0", error("x")).next(text("Up"))).next(latest("1.1")));
    assert_eq!(lines[0], print("Xray:           v1.0 (update available: v1.1)"));
    assert_eq!(lines[1], print("API status:     degraded (version ok, stats API unreachable)"));
    assert_eq!(lines[2], print("Uptime:         Up"));
    let lines = ended(on(job("unknown", Got::Yes(false)).next(text(""))).next(latest("unknown")));
    assert_eq!(lines[0], print("Xray:           vunknown (latest)"));
    assert_eq!(lines[1], print("API status:     unknown"));
}

#[test]
fn the_urls_of_a_user_are_printed() {
    let job = on(Job::Url { name: "alice".to_string() }.next(users()));
    assert!(matches!(job.need(), Some(Need::BridgeUrl(u)) if u == "0123456789"));
    let job = on(job.next(text("B")));
    assert!(matches!(job.need(), Some(Need::DirectUrl(u)) if u == "0123456789"));
    assert_eq!(ended(job.next(text("D"))), vec![print("Bridge: B"), print("Direct: D")]);
    assert_eq!(
        failed(Job::Url { name: "eve".to_string() }.next(users())),
        "user 'eve' not found"
    );
}

#[test]
fn the_code_of_a_user_is_drawn() {
    let job = on(Job::Qr { name: "alice".to_string() }.next(users()));
    assert!(matches!(job.need(), Some(Need::ServerUrl(u)) if u == "0123456789"));
    let job = on(job.next(text("U")));
    assert!(matches!(job.need(), Some(Need::QrLines(u)) if u == "U"));
    let lines = ended(job.next(Got::Lines(vec!["##".to_string()])));
    assert_eq!(lines, vec![print("##"), print(""), print("alice"), print("U")]);
    let job = on(on(Job::Qr { name: "alice".to_string() }.next(users())).next(text("U")));
    assert_eq!(
        failed(job.next(Got::Refused("too long".to_string()))),
        "QR generation failed: too long"
    );
}

#[test]
fn the_connection_strings_of_a_user_are_printed() {
    let direct = VlessUrlParams {
        uuid: "0123456789".to_string(),
        host: "h".to_string(),
        port: 1,
        sni: "s".to_string(),
        public_key: "k".to_string(),
        short_id: "i".to_string(),
        path: "/".to_string(),
    };
    let bridge = BridgeParams {
        host: "b".to_string(),
        port: 2,
        public_key: "k".to_string(),
        short_id: "i".to_string(),
        sni: "s".to_string(),
        path: "/".to_string(),
    };
    let through = VlessUrlParams { host: "b".to_string(), port: 2, ..direct.clone() };
    let job = on(Job::Vpn { name: "alice".to_string() }.next(users()));
    let job = on(job.next(Got::Bridge(bridge)));
    assert_eq!(
        ended(job.next(Got::Params(direct.clone()))),
        vec![
            print(&format!("Bridge: {}", generate_amnezia_url(&through))),
            print(&format!("Direct: {}", generate_amnezia_url(&direct))),
        ]
    );
}

#[test]
fn the_bot_starts_only_with_the_api() {
    let s = cli_telegram_bot();
    assert_eq!(s.lines, vec![note("Checking Xray API configuration...")]);
    assert_eq!(ended(s.job.next(Got::Yes(false))), vec![note("API already configured.")]);
    assert_eq!(
        failed(cli_telegram_bot().job.next(error("x"))),
        "failed to ensure Xray API is enabled (bot cannot operate without it): x"
    );
}

#[test]
fn a_backup_names_its_files() {
    let s = cli_backup();
    assert_eq!(s.lines, vec![note("Creating timestamped backup...")]);
    assert_eq!(
        ended(s.job.next(text("20260321-143000"))),
        vec![
            print("Backup created:"),
            print("  server.json.20260321-143000.bak"),
            print("  clientsTable.20260321-143000.bak"),
        ]
    );
}

#[test]
fn a_backup_is_restored_from_the_list() {
    let s = Job::Restore { timestamp: None }.next(Got::Lines(vec!["b".into(), "a".into()]));
    assert_eq!(
        s.lines,
        vec![note("Available backups:"), note("  b (latest)"), note("  a")]
    );
    assert!(matches!(s.job.need(), Some(Need::RestoreBackup(None))));
    assert_eq!(
        ended(s.job.next(text("b"))),
        vec![
            print("Restored from backup b:"),
            print("  server.json.b.bak -> server.json"),
            print("  clientsTable.b.bak -> clientsTable"),
            print("Container restarted."),
        ]
    );
    let s = Job::Restore { timestamp: None }.next(Got::Lines(Vec::new()));
    assert_eq!(failed(s), "no timestamped backups found");
}

const CONFIG: &str = r#"{"inbounds":[{"protocol":"vless","settings":{"clients":[{"id":"u1","email":"alice@vpn"}]}}]}"#;
const TABLE: &str = r#"[{"clientId":"u2","userData":{"clientName":"bob","creationDate":""}}]"#;

fn documents(name: &str) -> Step {
    let job = on(cli_add_user(name));
    assert!(matches!(job.need(), Some(Need::Config)));
    let job = on(job.next(Got::Config(ServerConfig::parse(CONFIG).unwrap())));
    assert!(matches!(job.need(), Some(Need::Table)));
    job.next(Got::Table(ClientsTable::parse(TABLE).unwrap()))
}

#[test]
fn a_user_is_added_by_command() {
    let job = on(documents("carol"));
    assert!(matches!(job.need(), Some(Need::EnsureApi)));
    let s = job.next(Got::Yes(true));
    assert_eq!(
        s.lines,
        vec![note("API was not configured — enabled and container restarted.")]
    );
    assert!(matches!(s.job.need(), Some(Need::AddUser(n)) if n == "carol"));
    let s = s.job.next(text("u9"));
    assert_eq!(
        s.lines,
        vec![print("User added successfully."), print("Name:  carol"), print("UUID:  u9")]
    );
    assert!(matches!(s.job.need(), Some(Need::BridgeUrl(u)) if u == "u9"));
    assert_eq!(ended(s.job.next(text("B"))), vec![print("Bridge: B")]);
}

#[test]
fn a_missing_url_does_not_undo_the_addition() {
    let job = on(on(documents("carol")).next(Got::Yes(false)));
    let s = job.next(text("u9"));
    assert_eq!(
        ended(s.job.next(error("no bridge"))),
        vec![note(
            "Warning: bridge URL generation failed: no bridge. Use --user-url to retry."
        )]
    );
}

#[test]
fn taken_names_change_nothing() {
    assert_eq!(failed(cli_add_user(" ")), "user name cannot be empty");
    assert_eq!(failed(documents("alice")), "user 'alice' already exists");
    assert_eq!(failed(documents("bob")), "user 'bob' already exists");
}

#[test]
fn a_deletion_is_confirmed_by_name() {
    let begun = |yes: bool| on(Job::Delete { name: "alice".to_string(), yes }.next(users()));
    let job = begun(true);
    assert!(matches!(job.need(), Some(Need::RemoveUser(u)) if u == "0123456789"));
    assert_eq!(ended(job.next(Got::Done)), vec![print("User 'alice' deleted.")]);

    let job = begun(false);
    assert!(matches!(job.need(), Some(Need::Terminal)));
    let s = job.next(Got::Yes(true));
    assert_eq!(
        s.lines,
        vec![note(
            "Are you sure you want to delete user 'alice'? Type the user name to confirm:"
        )]
    );
    let job = on(s.job.next(text(" alice\n")));
    assert!(matches!(job.need(), Some(Need::RemoveUser(u)) if u == "0123456789"));
}

#[test]
fn a_deletion_without_the_name_is_cancelled() {
    let begun = || on(Job::Delete { name: "alice".to_string(), yes: false }.next(users()));
    let s = begun().next(Got::Yes(true));
    assert_eq!(
        ended(s.job.next(text("bob\n"))),
        vec![note("Name does not match. Deletion cancelled.")]
    );
    match begun().next(Got::Yes(false)).job {
        Job::Failed { error: AppError::Config(m) } => {
            assert_eq!(m, "Interactive confirmation required. Use --yes to skip.")
        }
        other => panic!("{:?}", other),
    }
}

#[test]
fn a_user_is_renamed_by_command() {
    let job = Job::Rename { old_name: "a".to_string(), new_name: "b".to_string() };
    assert!(
        matches!(job.need(), Some(Need::RenameUser { old_name, new_name }) if old_name == "a" && new_name == "b")
    );
    assert_eq!(
        ended(job.next(Got::Done)),
        vec![
            print("User renamed: 'a' -> 'b'"),
            print("Note: rename resets traffic stats history for this user."),
        ]
    );
}

#[test]
fn the_bot_is_deployed_by_command() {
    match cli_deploy_bot("nonsense").job {
        Job::Failed { error: AppError::Config(m) } => {
            assert_eq!(m, "Invalid token format (expected <digits>:<secret>)")
        }
        other => panic!("{:?}", other),
    }
    let s = cli_deploy_bot("12:ab");
    assert_eq!(s.lines, vec![note("Connecting to VPS..."), note("Deploying Telegram bot...")]);
    assert_eq!(ended(s.job.next(text("done"))), vec![print("done")]);
    let s = cli_deploy_bot("12:ab").job.next(Got::Refused("no docker".to_string()));
    assert_eq!(failed(s), "no docker");
}

fn snapshots() -> Got {
    let one = |tag: &str| SnapshotInfo {
        tag: tag.to_string(),
        version: "1.0".to_string(),
        users_count: 3,
    };
    Got::Snapshots(vec![one("a"), one("b")])
}

#[test]
fn snapshots_are_made_and_listed_by_command() {
    let s = cli_snapshot();
    assert_eq!(s.lines, vec![note("Creating snapshot...")]);
    let made = SnapshotInfo { tag: "t".to_string(), version: "1.0".to_string(), users_count: 3 };
    assert_eq!(
        ended(s.job.next(Got::Snapshot(made))),
        vec![print("Snapshot created: t (v1.0, 3 users)")]
    );
    assert_eq!(
        ended(Job::Snapshots.next(snapshots())),
        vec![
            print("TAG                  XRAY VERSION         USERS     "),
            print(&"-".repeat(50)),
            print("a                    1.0                  3         "),
            print("b                    1.0                  3         "),
        ]
    );
    assert_eq!(
        ended(Job::Snapshots.next(Got::Snapshots(Vec::new()))),
        vec![print("No snapshots found.")]
    );
}

#[test]
fn a_snapshot_is_restored_by_command() {
    let s = Job::SnapshotRestore { tag: None }.next(snapshots());
    assert_eq!(
        s.lines,
        vec![
            note("Available snapshots:"),
            note("  a (v1.0, 3 users)"),
            note("  b (v1.0, 3 users)"),
            note("Restoring from snapshot [b]..."),
        ]
    );
    assert!(matches!(s.job.need(), Some(Need::Restore(t)) if t == "b"));
    assert_eq!(
        ended(s.job.next(Got::Done)),
        vec![print("Restored from snapshot [b]. Container restarted.")]
    );
    let s = Job::SnapshotRestore { tag: Some("c".to_string()) }.next(snapshots());
    assert_eq!(
        s.lines,
        vec![
            note("Available snapshots:"),
            note("  a (v1.0, 3 users)"),
            note("  b (v1.0, 3 users)"),
        ]
    );
    assert_eq!(failed(s), "snapshot 'c' not found. Available: a, b");
    let s = Job::SnapshotRestore { tag: None }.next(Got::Snapshots(Vec::new()));
    assert_eq!(failed(s), "no snapshots found");
}

#[test]
fn xray_is_upgraded_by_command() {
    let s = Job::Upgrade.next(info("1.0"));
    assert_eq!(s.lines, vec![note("Current version: v1.0")]);
    let s = s.job.next(text("1.1"));
    assert_eq!(s.lines, vec![note("Latest version:  v1.1"), note(""), note("Upgrading...")]);
    assert!(matches!(s.job.need(), Some(Need::Upgrade)));
    let result = UpgradeResult {
        old_version: "1.0".to_string(),
        new_version: "1.1".to_string(),
        snapshot_tag: "t".to_string(),
    };
    assert_eq!(
        ended(s.job.next(Got::Upgraded(result))),
        vec![
            print(""),
            print("Upgrade complete!"),
            print("  Before:   v1.0"),
            print("  After:    v1.1"),
            print("  Snapshot: t (use --snapshot-restore t to rollback)"),
        ]
    );
    let s = Job::Upgrade.next(info("1.0")).job.next(text("1.0"));
    assert_eq!(ended(s), vec![print("Already on latest version v1.0. Nothing to do.")]);
}

#[test]
fn failures_end_a_command() {
    assert_eq!(failed(Job::List.next(error("x"))), "x");
    assert_eq!(failed(cli_backup().job.next(error("x"))), "x");
    assert!(Job::Done.need().is_none());
}

fn answer(success: bool, stdout: &str) -> Option<Answer> {
    Some(Answer { success, stdout: stdout.to_string() })
}

#[test]
fn the_address_is_asked_of_one_service_after_another() {
    let l = Lookup::start();
    assert_eq!(l.url(), Some("https://ifconfig.me"));
    let l = l.next(answer(true, "<html>"), false);
    assert_eq!(l.url(), Some("https://icanhazip.com"));
    let l = l.next(answer(false, "1.2.3.4"), true);
    assert_eq!(l.url(), Some("https://api.ipify.org"));
    assert!(matches!(l.next(answer(true, " 1.2.3.4\n"), true), Lookup::Found(a) if a == "1.2.3.4"));
}

#[test]
fn the_host_is_asked_last() {
    let asked = || Lookup::start().next(None, false).next(None, false).next(None, false);
    assert!(asked().url().is_none());
    assert!(
        matches!(asked().next(answer(false, "10.0.0.1 172.17.0.1\n"), false), Lookup::Found(a) if a == "10.0.0.1")
    );
    assert!(matches!(asked().next(answer(true, " \n"), false), Lookup::Unknown));
    assert!(matches!(asked().next(None, false), Lookup::Unknown));
}

#[test]
fn pages_are_no_addresses() {
    assert!(looks_like_ip("1.2.3.4", true));
    assert!(!looks_like_ip("1.2.3.4", false));
    assert!(!looks_like_ip("<b>", true));
    assert!(!looks_like_ip("a b", true));
    assert!(!looks_like_ip(&"1".repeat(46), true));
}

#[test]
fn users_are_found() {
    assert_eq!(emails_of(&two()), vec!["alice@vpn", "@vpn"]);
    assert_eq!(uuid_of_name(&two(), "alice").as_deref(), Some("0123456789"));
    assert_eq!(uuid_of_name(&two(), "eve"), None);
    assert_eq!(place_of_id(&two(), "abcdefghij"), Some(1));
    assert_eq!(sum_of(&vec![Some(2), None, Some(5)]), 7);
}
