use amnezia_xray_admin::app::{App, Screen};
use amnezia_xray_admin::backend::{
    resolve_connection_info, AddedUser, BackendMsg, VlessUrlIntent,
};
use amnezia_xray_admin::bridge_client::{parse_bridge_stats, BridgeSysinfo};
use amnezia_xray_admin::bridge_config::{add_client, Edit};
use amnezia_xray_admin::config::{Cli, Config};
use amnezia_xray_admin::json::Json;
use amnezia_xray_admin::telegram::keyboards::{
    build_user_keyboard, delete_confirmation_keyboard, CONFIG_PREFIX, DELETE_PREFIX,
    MAX_CALLBACK_DATA_BYTES, QR_PREFIX, URL_PREFIX,
};
use amnezia_xray_admin::telegram::talk::{handle_command, Command, Talk};
use amnezia_xray_admin::telegram::texts::validate_user_name;
use amnezia_xray_admin::text::trim;
use amnezia_xray_admin::ui::setup::{SetupState, TestResult};
use amnezia_xray_admin::xray::client::AddUser;
use amnezia_xray_admin::xray::table::{merge_users, ClientsTable};
use amnezia_xray_admin::xray::types::{ServerConfig, TrafficStats, XrayUser};

const CONFIG: &str = r#"{"log":{"loglevel":"none"},"inbounds":[{"protocol":"http"},{"protocol":"vless","tag":"t","settings":{"decryption":"none","clients":[{"id":"u1","email":"alice@vpn","flow":"f"},{"id":"u2","email":"bob@vpn"},{"id":"u3"}]}}]}"#;

const TABLE: &str = r#"[{"clientId":"u1","userData":{"clientName":"alice"}},{"clientId":"u2","userData":{"clientName":"bob"}},{"clientId":"u3","userData":{"clientName":"carol"}}]"#;

fn documents() -> (ServerConfig, ClientsTable) {
    (ServerConfig::parse(CONFIG).unwrap(), ClientsTable::parse(TABLE).unwrap())
}

fn listed(users: &[XrayUser]) -> Vec<(&str, &str, &str)> {
    users.iter().map(|u| (u.uuid.as_str(), u.name.as_str(), u.email.as_str())).collect()
}

#[test]
fn a_removed_user_is_not_listed() {
    let (mut config, mut table) = documents();
    assert!(config.remove_client("u2").unwrap());
    assert!(table.remove("u2"));
    assert_eq!(
        listed(&merge_users(&config, &table)),
        vec![("u1", "alice", "alice@vpn"), ("u3", "carol", "carol@vpn")]
    );
}

#[test]
fn a_renamed_user_keeps_its_place() {
    let (mut config, mut table) = documents();
    assert!(table.rename("u2", "rob"));
    assert!(config.update_client_email("u2", "rob@vpn").unwrap());
    assert_eq!(
        listed(&merge_users(&config, &table)),
        vec![
            ("u1", "alice", "alice@vpn"),
            ("u2", "rob", "rob@vpn"),
            ("u3", "carol", "carol@vpn")
        ]
    );
}

#[test]
fn removing_an_entry_undoes_adding_it() {
    let (_, mut table) = documents();
    let before = table.to_json();
    table.add("u9".to_string(), "dave".to_string());
    assert!(table.remove("u9"));
    assert_eq!(table.to_json(), before);
}

#[test]
fn editing_the_clients_leaves_the_rest_alone() {
    let (mut config, _) = documents();
    config.remove_client("u1").unwrap();
    config.remove_client("u2").unwrap();
    config.remove_client("u3").unwrap();
    assert_eq!(
        Json::parse(&config.to_json()).unwrap().to_text(),
        r#"{"inbounds":[{"protocol":"http"},{"protocol":"vless","settings":{"clients":[],"decryption":"none"},"tag":"t"}],"log":{"loglevel":"none"}}"#
    );
    let bridge = r#"{"a":1,"inbounds":[{"b":2,"settings":{"c":3,"clients":[]}},{"d":4}]}"#;
    match add_client(Json::parse(bridge).unwrap(), "u", "e") {
        Edit::Write(j) => assert_eq!(
            j.to_text(),
            r#"{"a":1,"inbounds":[{"b":2,"settings":{"c":3,"clients":[{"email":"e","id":"u"}]}},{"d":4}]}"#
        ),
        other => panic!("{:?}", other),
    }
}

#[test]
fn numbers_the_library_does_not_read_are_kept() {
    let config = ServerConfig::parse(r#"{"x":0.25,"y":18446744073709551615,"z":-3}"#).unwrap();
    assert_eq!(
        Json::parse(&config.to_json()).unwrap().to_text(),
        r#"{"x":0.25,"y":18446744073709551615,"z":-3}"#
    );
}

#[test]
fn the_bridge_lists_every_user_once() {
    let mut stats = parse_bridge_stats(
        r#"{"stat":[{"name":"user>>>a@vpn>>>traffic>>>uplink","value":"1"},{"name":"user>>>b@vpn>>>traffic>>>uplink","value":2},{"name":"user>>>a@vpn>>>traffic>>>uplink","value":3},{"name":"inbound>>>x>>>traffic>>>uplink","value":9},{"name":"user>>>a@vpn>>>traffic>>>downlink","value":"bad"}]}"#,
    );
    stats.sort();
    assert_eq!(stats, vec![("a@vpn".to_string(), 3, 0), ("b@vpn".to_string(), 2, 0)]);
}

#[test]
fn a_part_is_at_most_the_whole() {
    let s = BridgeSysinfo { mem_used_mb: 7, mem_total_mb: 7, ..BridgeSysinfo::default() };
    assert_eq!(s.mem_percent(), 100);
    let s = BridgeSysinfo { disk_used_gb: 1, disk_total_gb: 201, ..BridgeSysinfo::default() };
    assert_eq!(s.disk_percent(), 0);
}

fn asked(container: &str) -> Cli {
    Cli {
        host: Some("h".to_string()),
        port: None,
        user: None,
        key_path: None,
        ssh_host: None,
        container: Some(container.to_string()),
        list_users: false,
        check_server: false,
        user_url: None,
        user_qr: None,
        user_vpn: None,
        online_status: false,
        server_info: false,
        local: false,
        telegram_bot: false,
        telegram_token: None,
        deploy_bot: false,
        admin_id: None,
        backup: false,
        restore: None,
        add_user: None,
        rename_user: None,
        delete_user: None,
        yes: false,
        snapshot: false,
        snapshot_restore: None,
        snapshot_list: false,
        upgrade_xray: false,
        snapshot_dir: None,
        http_agent: false,
        secret: None,
        agent_port: 9090,
        bridge_agent_url: None,
    }
}

#[test]
fn a_container_that_cannot_be_named_so_is_not_taken() {
    let mut config = Config::default();
    assert!(config.merge_cli(&asked("a;b")).is_some());
    assert_eq!(config.container, "amnezia-xray");
    assert_eq!(config.host.as_deref(), Some("h"));
    assert!(config.merge_cli(&asked("other")).is_none());
    assert_eq!(config.container, "other");
    let once = config.clone();
    assert!(config.merge_cli(&asked("other")).is_none());
    assert_eq!(config, once);
}

#[test]
fn a_configuration_with_a_host_can_be_reached() {
    let config = Config { host: Some("h".to_string()), ..Config::default() };
    assert!(config.has_connection_info());
    assert!(resolve_connection_info(&config, &None, "/").is_ok());
}

#[test]
fn the_form_gives_the_configuration_back() {
    let config = Config {
        host: Some("h".to_string()),
        port: 2222,
        user: "me".to_string(),
        key_path: Some("/k".to_string()),
        ..Config::default()
    };
    let back = SetupState::from_config(&config).to_config();
    assert_eq!(back.host, config.host);
    assert_eq!(back.port, config.port);
    assert_eq!(back.user, config.user);
    assert_eq!(back.key_path, config.key_path);
    assert_eq!(back.container, config.container);
}

#[test]
fn a_url_for_nobody_that_is_shown_is_dropped() {
    let mut app = App::new(true);
    app.screen = Screen::UserDetail;
    let url = AddedUser {
        name: "n".to_string(),
        uuid: "u".to_string(),
        vless_url: "U".to_string(),
    };
    let effects =
        app.process_backend_message(BackendMsg::VlessUrl(Ok(url), VlessUrlIntent::Qr), 0);
    assert!(effects.is_empty());
    assert_eq!(app.screen, Screen::UserDetail);
    assert_eq!(app.qr_view_state.shown, None);
}

#[test]
fn a_test_of_an_edited_form_says_nothing() {
    let mut app = App::new(false);
    app.setup_state.host = "h".to_string();
    app.pending_test = true;
    app.tested_config = Some(app.setup_state.to_config());
    app.setup_state.host = "other".to_string();
    app.setup_state.test_result = TestResult::Untested;
    app.process_backend_message(BackendMsg::ConnectionTest(Ok("Xray".to_string())), 0);
    assert!(matches!(app.setup_state.test_result, TestResult::Untested));
    assert!(!app.pending_test);
}

#[test]
fn no_command_upgrades_at_once() {
    let config = Config { telegram_admin_chat_id: Some(1), ..Config::default() };
    let opening = handle_command(&config, 1, Command::Upgrade);
    assert!(matches!(opening.talk, Talk::UpgradeCheck));
}

#[test]
fn every_name_that_is_taken_has_its_buttons() {
    let name = "é".repeat(25);
    assert_eq!(validate_user_name(&name), None);
    assert!(matches!(AddUser::start(&name, "u"), AddUser::ReadConfig { .. }));
    let user = XrayUser {
        uuid: "u".to_string(),
        name: name.clone(),
        email: String::new(),
        flow: String::new(),
        stats: TrafficStats::default(),
        online_count: 0,
    };
    for prefix in [CONFIG_PREFIX, URL_PREFIX, QR_PREFIX, DELETE_PREFIX] {
        let r = build_user_keyboard(&[user.clone()], prefix);
        assert_eq!(r.keyboard.inline_keyboard.len(), 1);
    }
    assert!(validate_user_name(&format!("{}x", name)).is_some());
}

#[test]
fn the_buttons_of_a_deletion_hold_the_id() {
    let keyboard = delete_confirmation_keyboard("01234567-89ab-4cde-8f01-23456789abcd");
    for button in &keyboard.inline_keyboard[0] {
        assert!(button.data.len() <= MAX_CALLBACK_DATA_BYTES);
    }
}

#[test]
fn trimming_twice_is_trimming_once() {
    for s in ["", " ", " a ", "\u{a0}a b\t"] {
        assert_eq!(trim(&trim(s)), trim(s));
    }
}
