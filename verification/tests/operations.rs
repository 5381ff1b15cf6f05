use amnezia_xray_admin::error::AppError;
use amnezia_xray_admin::xray::client::{
    choose_backup, find_email, AddUser, CommandOutput, RemoveUser, RenameUser, Reply, Request,
    RestoreConfig, XrayApiClient,
};
use amnezia_xray_admin::xray::commands::{
    build_adu_cmd, build_restart_cmd, build_write_cmd, is_valid_timestamp, shell_quote,
};
use amnezia_xray_admin::xray::table::ClientsTable;
use amnezia_xray_admin::xray::types::ServerConfig;
use base64::Engine;

const CONFIG: &str = r#"{"inbounds":[{"protocol":"vless","settings":{"clients":[{"id":"u1","email":"alice@vpn"},{"id":"u2"}]}}]}"#;

const TABLE: &str = r#"[{"clientId":"u1","userData":{"clientName":"alice","creationDate":"d1"}},{"clientId":"u2","userData":{"clientName":"bob","creationDate":"d2"}}]"#;

fn config() -> ServerConfig {
    ServerConfig::parse(CONFIG).unwrap()
}

fn table() -> ClientsTable {
    ClientsTable::parse(TABLE).unwrap()
}

fn output(success: bool, stdout: &str, stderr: &str) -> CommandOutput {
    CommandOutput { stdout: stdout.to_string(), stderr: stderr.to_string(), success }
}

fn fine() -> Reply {
    Reply::Output(output(true, "", ""))
}

fn refused(stderr: &str) -> Reply {
    Reply::Output(output(false, "", stderr))
}

fn broken() -> Reply {
    Reply::Failed(AppError::Xray("link down".to_string()))
}

fn command(r: Option<Request>) -> String {
    match r {
        Some(Request::InContainer(c)) => c,
        other => panic!("expected a command in the container, got {:?}", other),
    }
}

fn on_host(r: Option<Request>) -> String {
    match r {
        Some(Request::OnHost(c)) => c,
        other => panic!("expected a command on the host, got {:?}", other),
    }
}

/// The document that a command writes.
fn written(cmd: &str) -> String {
    let rest = cmd.strip_prefix("sh -c 'echo ").unwrap();
    let coded = rest.split(' ').next().unwrap();
    let bytes = base64::engine::general_purpose::STANDARD.decode(coded).unwrap();
    String::from_utf8(bytes).unwrap()
}

const BACKUP: &str = "sh -c 'cp /opt/amnezia/xray/server.json /opt/amnezia/xray/server.json.bak && cp /opt/amnezia/xray/clientsTable /opt/amnezia/xray/clientsTable.bak'";

fn is_v4(uuid: &str) -> bool {
    uuid.len() == 36
        && uuid.char_indices().all(|(i, c)| match i {
            8 | 13 | 18 | 23 => c == '-',
            14 => c == '4',
            19 => matches!(c, '8' | '9' | 'a' | 'b'),
            _ => c.is_ascii_digit() || ('a'..='f').contains(&c),
        })
}

#[test]
fn adding_a_user_writes_both_documents_before_the_server_is_told() {
    let step = XrayApiClient::new("amnezia-xray").add_user("carol");
    assert!(matches!(step.request(), Some(Request::ReadConfig)));
    let step = step.next(Reply::Config(config()));
    assert_eq!(command(step.request()), BACKUP);
    let step = step.next(fine());

    let cmd = command(step.request());
    assert!(cmd.ends_with(
        " | base64 -d > /opt/amnezia/xray/server.json.tmp && mv /opt/amnezia/xray/server.json.tmp /opt/amnezia/xray/server.json'"
    ));
    let now = ServerConfig::parse(&written(&cmd)).unwrap();
    let clients = now.clients();
    assert_eq!(clients.len(), 3);
    assert_eq!(clients[2].email.as_deref(), Some("carol@vpn"));
    assert_eq!(clients[2].flow, "");
    assert_eq!(clients[2].level, Some(0));
    let uuid = clients[2].id.clone();
    assert!(is_v4(&uuid), "{}", uuid);

    let step = step.next(fine());
    assert!(matches!(step.request(), Some(Request::ReadTable)));
    let step = step.next(Reply::Table(table()));
    let cmd = command(step.request());
    assert!(cmd.contains("> /opt/amnezia/xray/clientsTable.tmp && mv "));
    let now = ClientsTable::parse(&written(&cmd)).unwrap();
    assert_eq!(now.entries.len(), 3);
    assert_eq!(now.name_for_uuid(&uuid), Some("carol"));

    let step = step.next(fine());
    let cmd = command(step.request());
    assert!(cmd.ends_with(
        " | base64 -d > /tmp/_adu.json && xray api adu -s 127.0.0.1:8080 /tmp/_adu.json; rc=$?; rm -f /tmp/_adu.json; exit $rc'"
    ));
    let told = written(&cmd);
    assert!(told.contains("\"vless-in\"") && told.contains(&uuid) && told.contains("carol@vpn"));

    match step.next(fine()) {
        AddUser::Done { uuid: u } => assert_eq!(u, uuid),
        other => panic!("{:?}", other),
    }
}

#[test]
fn two_new_users_get_two_ids() {
    let client = XrayApiClient::new("amnezia-xray");
    match (client.add_user("carol"), client.add_user("carol")) {
        (AddUser::ReadConfig { uuid: a, .. }, AddUser::ReadConfig { uuid: b, .. }) => {
            assert_ne!(a, b)
        }
        other => panic!("{:?}", other),
    }
}

fn add_failure(s: AddUser) -> String {
    match s {
        AddUser::Failed { error } => error.message().to_string(),
        other => panic!("{:?}", other),
    }
}

#[test]
fn names_that_cannot_be_added() {
    assert_eq!(add_failure(AddUser::start(" \t", "u")), "user name cannot be empty");
    let bad = "user name must not contain '@' or '>>>'";
    assert_eq!(add_failure(AddUser::start("a@b", "u")), bad);
    assert_eq!(add_failure(AddUser::start("a>>>b", "u")), bad);
    assert!(matches!(AddUser::start("a>>b", "u"), AddUser::ReadConfig { .. }));
}

#[test]
fn a_taken_name_is_refused_before_the_backup() {
    let s = AddUser::start("alice", "u").next(Reply::Config(config()));
    assert_eq!(add_failure(s), "user 'alice' already exists");
}

#[test]
fn adding_a_user_stops_where_it_fails() {
    let read = || AddUser::start("carol", "u9").next(Reply::Config(config()));
    assert_eq!(add_failure(AddUser::start("carol", "u9").next(broken())), "link down");
    assert_eq!(add_failure(read().next(refused(" full\n"))), "backup failed: full");
    assert_eq!(
        add_failure(read().next(fine()).next(refused("ro\n"))),
        "failed to write server config: ro\n"
    );
    let tabled = || read().next(fine()).next(fine()).next(Reply::Table(table()));
    assert_eq!(
        add_failure(tabled().next(refused("ro\n"))),
        "failed to write clients table: ro\n"
    );
    assert_eq!(add_failure(tabled().next(fine()).next(refused(" no api\n"))), "adu failed: no api");
    let bare = ServerConfig::parse("{}").unwrap();
    let s = AddUser::start("carol", "u9").next(Reply::Config(bare)).next(fine());
    assert_eq!(add_failure(s), "no VLESS inbound found");
}

#[test]
fn removing_a_user_revokes_before_the_documents_change() {
    let step = XrayApiClient::new("amnezia-xray").remove_user("u1");
    assert!(matches!(step.request(), Some(Request::ReadConfig)));
    let step = step.next(Reply::Config(config()));
    assert!(matches!(step.request(), Some(Request::ReadTable)));
    let step = step.next(Reply::Table(table()));
    assert_eq!(command(step.request()), BACKUP);
    let step = step.next(fine());
    let cmd = command(step.request());
    assert!(cmd.contains("xray api rmu") && cmd.contains("alice@vpn"));
    let step = step.next(fine());
    let now = ServerConfig::parse(&written(&command(step.request()))).unwrap();
    assert_eq!(now.clients().len(), 1);
    assert_eq!(now.clients()[0].id, "u2");
    let step = step.next(fine());
    let now = ClientsTable::parse(&written(&command(step.request()))).unwrap();
    assert_eq!(now.entries.len(), 1);
    assert_eq!(now.name_for_uuid("u2"), Some("bob"));
    assert!(matches!(step.next(fine()), RemoveUser::Done));
}

fn remove_failure(s: RemoveUser) -> String {
    match s {
        RemoveUser::Failed { error } => error.message().to_string(),
        other => panic!("{:?}", other),
    }
}

#[test]
fn removing_a_user_stops_where_it_fails() {
    let read = |id: &str| {
        RemoveUser::start(id).next(Reply::Config(config())).next(Reply::Table(table()))
    };
    assert_eq!(remove_failure(read("u3")), "user u3 not found");
    assert_eq!(remove_failure(read("u1").next(refused(" full"))), "backup failed: full");
    assert_eq!(
        remove_failure(read("u1").next(fine()).next(refused(" gone\n"))),
        "rmu failed: gone"
    );
    assert_eq!(
        remove_failure(read("u1").next(fine()).next(fine()).next(refused("ro"))),
        "failed to write server config: ro"
    );
    assert_eq!(
        remove_failure(read("u1").next(fine()).next(fine()).next(fine()).next(refused("ro"))),
        "failed to write clients table: ro"
    );
    assert_eq!(remove_failure(RemoveUser::start("u1").next(broken())), "link down");
}

#[test]
fn the_email_of_a_user_comes_from_the_client_or_the_table() {
    assert_eq!(find_email(&config(), &table(), "u1").as_deref(), Some("alice@vpn"));
    assert_eq!(find_email(&config(), &table(), "u2").as_deref(), Some("bob@vpn"));
    assert_eq!(find_email(&config(), &table(), "u3"), None);
}

#[test]
fn renaming_a_user_changes_both_documents_and_restarts() {
    let step = XrayApiClient::new("amnezia-xray").rename_user("bob", "rob");
    assert!(matches!(step.request(), Some(Request::ReadTable)));
    let step = step.next(Reply::Table(table()));
    assert!(matches!(step.request(), Some(Request::ReadConfig)));
    let step = step.next(Reply::Config(config()));
    assert_eq!(command(step.request()), BACKUP);
    let step = step.next(fine());
    assert!(command(step.request()).contains("bob@vpn"));
    let step = step.next(refused("no such counter"));
    let now = ClientsTable::parse(&written(&command(step.request()))).unwrap();
    assert_eq!(now.name_for_uuid("u2"), Some("rob"));
    assert_eq!(now.name_for_uuid("u1"), Some("alice"));
    let step = step.next(fine());
    let now = ServerConfig::parse(&written(&command(step.request()))).unwrap();
    assert_eq!(now.clients()[1].email.as_deref(), Some("rob@vpn"));
    assert_eq!(now.clients()[0].email.as_deref(), Some("alice@vpn"));
    let step = step.next(fine());
    assert_eq!(on_host(step.request()), "docker restart 'amnezia-xray'");
    assert!(matches!(step.next(fine()), RenameUser::Done));
}

fn rename_failure(s: RenameUser) -> String {
    match s {
        RenameUser::Failed { error } => error.message().to_string(),
        other => panic!("{:?}", other),
    }
}

#[test]
fn renaming_a_user_stops_where_it_fails() {
    let read = |a: &str, b: &str| {
        RenameUser::start("c", a, b).next(Reply::Table(table())).next(Reply::Config(config()))
    };
    assert_eq!(
        rename_failure(RenameUser::start("c", "bob", " ")),
        "new user name cannot be empty"
    );
    assert_eq!(rename_failure(read("eve", "rob")), "user 'eve' not found");
    assert_eq!(rename_failure(read("bob", "alice")), "user 'alice' already exists");
    assert_eq!(rename_failure(read("bob", "rob").next(refused("full"))), "backup failed: full");
    let other = ServerConfig::parse(
        r#"{"inbounds":[{"protocol":"vless","settings":{"clients":[]}}]}"#,
    )
    .unwrap();
    let s = RenameUser::start("c", "bob", "rob")
        .next(Reply::Table(table()))
        .next(Reply::Config(other))
        .next(fine());
    assert_eq!(rename_failure(s), "user UUID 'u2' not found in server.json");
    let last = read("bob", "rob").next(fine()).next(fine()).next(fine()).next(fine());
    assert_eq!(
        rename_failure(last.next(refused(" busy \n"))),
        "failed to restart container: busy"
    );
}

const LISTED: &str =
    "/opt/amnezia/xray/server.json.20260321-143000.bak\n/opt/amnezia/xray/server.json.20260320-120000.bak\n";

fn listed() -> Reply {
    Reply::Output(output(true, LISTED, ""))
}

#[test]
fn the_newest_backup_is_restored_unless_another_is_asked_for() {
    let client = XrayApiClient::new("it's");
    let step = client.restore_config(None).next(listed());
    assert_eq!(
        command(step.request()),
        "test -f /opt/amnezia/xray/clientsTable.20260321-143000.bak"
    );
    let step = step.next(fine());
    let cmd = command(step.request());
    assert!(cmd.contains("cp /opt/amnezia/xray/server.json.20260321-143000.bak "));
    let step = step.next(fine());
    assert_eq!(on_host(step.request()), "docker restart 'it'\\''s'");
    match step.next(fine()) {
        RestoreConfig::Done { timestamp } => assert_eq!(timestamp, "20260321-143000"),
        other => panic!("{:?}", other),
    }

    let step = client.restore_config(Some("20260320-120000".to_string())).next(listed());
    assert!(command(step.request()).contains("20260320-120000"));
}

fn restore_failure(s: RestoreConfig) -> String {
    match s {
        RestoreConfig::Failed { error } => error.message().to_string(),
        other => panic!("{:?}", other),
    }
}

#[test]
fn restoring_stops_where_it_fails() {
    let start = |asked: Option<&str>| RestoreConfig::start("c", asked.map(str::to_string));
    assert_eq!(restore_failure(start(None).next(fine())), "no timestamped backups found");
    assert_eq!(
        restore_failure(start(Some("20200101-000000")).next(listed())),
        "backup with timestamp '20200101-000000' not found"
    );
    assert_eq!(
        restore_failure(start(None).next(listed()).next(refused(""))),
        "incomplete backup: clientsTable.20260321-143000.bak not found"
    );
    assert_eq!(
        restore_failure(start(None).next(listed()).next(fine()).next(refused(" io "))),
        "restore failed: io"
    );
    assert_eq!(
        restore_failure(start(None).next(listed()).next(fine()).next(fine()).next(refused("x"))),
        "failed to restart container after restore: x"
    );
}

#[test]
fn a_backup_is_chosen_from_the_list() {
    let all = vec!["b".to_string(), "a".to_string()];
    assert_eq!(choose_backup(&all, &None).unwrap(), "b");
    assert_eq!(choose_backup(&all, &Some("a".to_string())).unwrap(), "a");
    assert_eq!(
        choose_backup(&all, &Some("c".to_string())).unwrap_err().message(),
        "backup with timestamp 'c' not found"
    );
    assert_eq!(
        choose_backup(&Vec::new(), &None).unwrap_err().message(),
        "no timestamped backups found"
    );
}

#[test]
fn answers_of_the_server_are_read() {
    let client = XrayApiClient::new("c");
    let stat = |n: &str| output(true, &format!(r#"{{"stat":{{"value":{}}}}}"#, n), "");
    let stats = client.get_user_stats(&stat("10"), &stat("20"));
    assert_eq!((stats.uplink, stats.downlink), (10, 20));
    let none = output(false, "not found", "");
    let stats = client.get_user_stats(&none, &none);
    assert_eq!((stats.uplink, stats.downlink), (0, 0));
    assert_eq!(client.get_online_count(&stat("3")), 3);
    assert_eq!(client.get_online_count(&none), 0);
    assert!(client.get_online_ips(&none).is_empty());
    assert!(client.probe_stats_api(&stat("0")));
    assert!(!client.probe_stats_api(&none));
    let version = output(true, "Xray 25.8.3 (Xray, Penetrates Everything.)\n", "");
    let info = client.get_server_info(&version, &stat("7"), &none);
    assert_eq!((info.version.as_str(), info.uplink, info.downlink), ("25.8.3", 7, 0));
}

#[test]
fn backups_are_answered_for() {
    let client = XrayApiClient::new("c");
    assert!(client.backup_config(&output(true, "", "")).is_ok());
    assert_eq!(
        client.backup_config(&output(false, "", " x ")).unwrap_err().message(),
        "backup failed: x"
    );
    assert_eq!(
        client.backup_config_timestamped(&output(true, "20260321-143000\n", "")).unwrap(),
        "20260321-143000"
    );
    assert_eq!(
        client.backup_config_timestamped(&output(false, "", " x ")).unwrap_err().message(),
        "timestamped backup failed: x"
    );
    assert_eq!(
        client.list_backups(&output(false, LISTED, "")),
        vec!["20260321-143000", "20260320-120000"]
    );
}

#[test]
fn users_are_merged_from_both_documents() {
    let users = XrayApiClient::new("c").list_users(&config(), &table());
    assert_eq!(users.len(), 2);
    assert_eq!((users[0].name.as_str(), users[0].email.as_str()), ("alice", "alice@vpn"));
    assert_eq!((users[1].name.as_str(), users[1].email.as_str()), ("bob", "bob@vpn"));
}

#[test]
fn quoting_survives_quotes() {
    assert_eq!(shell_quote("plain"), "'plain'");
    assert_eq!(shell_quote("it's"), "'it'\\''s'");
    assert_eq!(shell_quote(""), "''");
    assert_eq!(build_restart_cmd("a b"), "docker restart 'a b'");
}

#[test]
fn documents_are_written_in_base64() {
    assert_eq!(
        build_write_cmd("/p", "{\"é\":1}"),
        "sh -c 'echo eyLDqSI6MX0= | base64 -d > /p.tmp && mv /p.tmp /p'"
    );
    assert_eq!(
        build_adu_cmd("{}"),
        "sh -c 'echo e30= | base64 -d > /tmp/_adu.json && xray api adu -s 127.0.0.1:8080 /tmp/_adu.json; rc=$?; rm -f /tmp/_adu.json; exit $rc'"
    );
}

#[test]
fn times_are_digits_and_dashes() {
    assert!(is_valid_timestamp("20260321-143000"));
    assert!(!is_valid_timestamp("20260321;rm"));
    assert!(!is_valid_timestamp(""));
}
