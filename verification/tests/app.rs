use amnezia_xray_admin::app::{chrono_free_timestamp, truncate_msg, App, Screen};
use amnezia_xray_admin::backend::{AddedUser, BackendMsg, DashboardData};
use amnezia_xray_admin::config::Config;
use amnezia_xray_admin::ui::keys::{KeyCode, KeyEvent};
use amnezia_xray_admin::ui::setup::TestResult;
use amnezia_xray_admin::ui::states::{AddUserResult, DeployStatus, DetailMode};
use amnezia_xray_admin::xray::client::ServerInfo;
use amnezia_xray_admin::xray::types::XrayUser;

fn make_key(code: KeyCode) -> KeyEvent {
    KeyEvent { code, shift: false, control: false }
}

fn make_ctrl_key(code: KeyCode) -> KeyEvent {
    KeyEvent { code, shift: false, control: true }
}

#[test]
fn test_new_with_config() {
    let app = App::new(true);
    assert_eq!(app.screen, Screen::Dashboard);
    assert!(app.running);
}

#[test]
fn test_new_without_config() {
    let app = App::new(false);
    assert_eq!(app.screen, Screen::Setup);
    assert!(app.running);
}

#[test]
fn test_quit() {
    let mut app = App::new(true);
    assert!(app.running);
    app.quit();
    assert!(!app.running);
}

#[test]
fn test_ctrl_c_quits() {
    let mut app = App::new(true);
    app.handle_key(make_ctrl_key(KeyCode::Char('c')), false, None);
    assert!(!app.running);
}

#[test]
fn test_ctrl_q_quits() {
    let mut app = App::new(true);
    app.handle_key(make_ctrl_key(KeyCode::Char('q')), false, None);
    assert!(!app.running);
}

#[test]
fn test_q_quits_from_dashboard() {
    let mut app = App::new(true);
    app.handle_key(make_key(KeyCode::Char('q')), false, None);
    assert!(!app.running);
}

#[test]
fn test_esc_quits_from_setup() {
    let mut app = App::new(false);
    app.handle_key(make_key(KeyCode::Esc), false, None);
    assert!(!app.running);
}

#[test]
fn test_a_opens_add_user() {
    let mut app = App::new(true);
    app.handle_key(make_key(KeyCode::Char('a')), false, None);
    assert_eq!(app.screen, Screen::AddUser);
}

#[test]
fn test_esc_from_add_user_returns_to_dashboard() {
    let mut app = App::new(true);
    app.screen = Screen::AddUser;
    app.handle_key(make_key(KeyCode::Esc), false, None);
    assert_eq!(app.screen, Screen::Dashboard);
}

#[test]
fn test_esc_from_qr_view_returns_to_dashboard() {
    let mut app = App::new(true);
    app.screen = Screen::QrView;
    app.handle_key(make_key(KeyCode::Esc), false, None);
    assert_eq!(app.screen, Screen::Dashboard);
}

#[test]
fn test_esc_from_user_detail_returns_to_dashboard() {
    let mut app = App::new(true);
    app.screen = Screen::UserDetail;
    app.user_detail_state.mode = DetailMode::View;
    app.handle_key(make_key(KeyCode::Esc), false, None);
    assert_eq!(app.screen, Screen::Dashboard);
}

#[test]
fn test_should_refresh() {
    let app = App::new(true);
    assert!(app.should_refresh(10_000));
}

#[test]
fn test_should_not_refresh_too_soon() {
    let app = App::new(true);
    assert!(!app.should_refresh(0));
}

#[test]
fn test_screen_labels() {
    let mut app = App::new(true);
    app.screen = Screen::Dashboard;
    assert_eq!(app.screen_label(), "Dashboard");
    app.screen = Screen::Setup;
    assert_eq!(app.screen_label(), "Setup");
    app.screen = Screen::UserDetail;
    assert_eq!(app.screen_label(), "User Detail");
    app.screen = Screen::AddUser;
    assert_eq!(app.screen_label(), "Add User");
    app.screen = Screen::QrView;
    assert_eq!(app.screen_label(), "QR Code");
    app.screen = Screen::TelegramSetup;
    assert_eq!(app.screen_label(), "Telegram Bot");
}

#[test]
fn test_keybind_hints_nonempty() {
    let mut app = App::new(true);
    for screen in [
        Screen::Dashboard,
        Screen::Setup,
        Screen::UserDetail,
        Screen::AddUser,
        Screen::QrView,
        Screen::TelegramSetup,
    ] {
        app.screen = screen;
        assert!(!app.keybind_hints().is_empty());
    }
}

#[test]
fn test_with_config_sets_host() {
    let config = Config {
        host: Some("1.2.3.4".to_string()),
        port: 22,
        user: "root".to_string(),
        key_path: None,
        ssh_host: None,
        container: "amnezia-xray".to_string(),
        telegram_token: None,
        telegram_admin_chat_id: None,
        bot_image: Default::default(),
        snapshot_dir: None,
        bridge_agent_url: None,
    };
    let app = App::with_config(config);
    assert_eq!(app.screen, Screen::Dashboard);
    assert_eq!(app.dashboard_state.server_host, "1.2.3.4");
}

#[test]
fn test_with_config_ssh_host_sets_host() {
    let config = Config {
        host: None,
        port: 22,
        user: "root".to_string(),
        key_path: None,
        ssh_host: Some("vps-vpn".to_string()),
        container: "amnezia-xray".to_string(),
        telegram_token: None,
        telegram_admin_chat_id: None,
        bot_image: Default::default(),
        snapshot_dir: None,
        bridge_agent_url: None,
    };
    let app = App::with_config(config);
    assert_eq!(app.dashboard_state.server_host, "vps-vpn");
}

#[test]
fn test_truncate_msg() {
    assert_eq!(truncate_msg("short", 10), "short");
    assert_eq!(truncate_msg("a long message here", 6), "a long...");
}

#[test]
fn test_chrono_free_timestamp() {
    let now = std::time::SystemTime::now()
        .duration_since(std::time::UNIX_EPOCH)
        .unwrap_or_default();
    let ts = chrono_free_timestamp(now.as_secs());
    assert!(ts.ends_with("UTC"));
    assert!(ts.contains(':'));
}

#[test]
fn test_process_backend_messages_empty() {
    let mut app = App::new(true);
    // Should not panic with no messages
    app.process_backend_messages(vec![], 0);
}

#[test]
fn test_process_dashboard_data() {
    let mut app = App::new(true);
    app.pending_refresh = true;
    app.dashboard_state.loading = true;

    // Send a dashboard data message
    let msg = BackendMsg::DashboardData(Ok(
        DashboardData {
            users: vec![],
            server_info: ServerInfo {
                version: "Xray 25.8.3".to_string(),
                uplink: 1000,
                downlink: 2000,
            },
            container_uptime: "Up 2 hours".to_string(),
            latest_version: Some("25.8.3".to_string()),
            version_was_fetched: true,
        },
    ));

    app.process_backend_messages(vec![msg], 0);

    assert!(!app.pending_refresh);
    assert!(!app.dashboard_state.loading);
    assert_eq!(app.dashboard_state.server_version, "Xray 25.8.3");
    assert_eq!(app.dashboard_state.total_upload, 1000);
    assert_eq!(app.dashboard_state.total_download, 2000);
}

#[test]
fn test_process_dashboard_data_error() {
    let mut app = App::new(true);
    app.pending_refresh = true;
    app.dashboard_state.loading = true;

    let msg = BackendMsg::DashboardData(Err("connection failed".into()));

    app.process_backend_messages(vec![msg], 0);

    assert!(!app.pending_refresh);
    assert!(!app.dashboard_state.loading);
    assert!(app.status_message.contains("Error"));
}

#[test]
fn test_process_connection_test_success() {
    let mut app = App::new(false);
    app.setup_state.test_result = TestResult::Testing;

    let msg = BackendMsg::ConnectionTest(Ok("Xray 25.8.3".to_string()));

    app.process_backend_messages(vec![msg], 0);

    match &app.setup_state.test_result {
        TestResult::Success(msg) => assert!(msg.contains("Xray 25.8.3")),
        other => panic!("Expected Success, got {:?}", other),
    }
}

#[test]
fn test_process_connection_test_error() {
    let mut app = App::new(false);

    let msg = BackendMsg::ConnectionTest(Err("connection refused".into()));

    app.process_backend_messages(vec![msg], 0);

    match &app.setup_state.test_result {
        TestResult::Error(msg) => assert!(msg.contains("connection refused")),
        other => panic!("Expected Error, got {:?}", other),
    }
}

#[test]
fn test_process_user_added() {
    let mut app = App::new(true);
    app.screen = Screen::AddUser;
    app.add_user_state.name = "alice".to_string();
    app.pending_add_name = Some("alice".to_string());

    let msg = BackendMsg::UserAdded(Ok(AddedUser {
            name: "alice".to_string(),
            uuid: "test-uuid".to_string(),
            vless_url: "vless://test@host:443#alice".to_string(),
        }));

    app.process_backend_messages(vec![msg], 0);

    match &app.add_user_state.result {
        AddUserResult::Success { name, uuid } => {
            assert_eq!(name, "alice");
            assert_eq!(uuid, "test-uuid");
        }
        _ => panic!("Expected Success"),
    }
    assert!(app.add_user_state.cached_vless_url.is_some());
}

#[test]
fn test_process_user_deleted() {
    let mut app = App::new(true);
    app.screen = Screen::UserDetail;
    // Set up the user detail state with the matching UUID
    app.user_detail_state.open(XrayUser {
        uuid: "deleted-uuid".to_string(),
        name: "testuser".to_string(),
        email: "testuser@vpn".to_string(),
        flow: "xtls-rprx-vision".to_string(),
        stats: Default::default(),
        online_count: 0,
    });

    let msg = BackendMsg::UserDeleted(Ok("deleted-uuid".to_string()));

    app.process_backend_messages(vec![msg], 0);

    assert_eq!(app.user_detail_state.mode, DetailMode::DeleteSuccess);
}

#[test]
fn test_t_opens_telegram_setup() {
    let mut app = App::new(true);
    app.handle_key(make_key(KeyCode::Char('t')), false, None);
    assert_eq!(app.screen, Screen::TelegramSetup);
}

#[test]
fn test_esc_from_telegram_setup_returns_to_dashboard() {
    let mut app = App::new(true);
    app.screen = Screen::TelegramSetup;
    app.handle_key(make_key(KeyCode::Esc), false, None);
    assert_eq!(app.screen, Screen::Dashboard);
}

#[test]
fn test_telegram_setup_preserves_token_from_config() {
    let mut app = App::new(true);
    app.config.telegram_token = Some("123:abc".to_string());
    app.config.telegram_admin_chat_id = Some(987654321);
    app.handle_key(make_key(KeyCode::Char('t')), false, None);
    assert_eq!(app.screen, Screen::TelegramSetup);
    assert_eq!(app.telegram_setup_state.token, "123:abc");
    assert_eq!(app.telegram_setup_state.admin_id, "987654321");
}

#[test]
fn test_process_deploy_bot_success() {
    let mut app = App::new(true);
    app.screen = Screen::TelegramSetup;
    app.pending_deploy = true;

    let msg = BackendMsg::DeployBot(Ok(
        "Bot deployed and running!".to_string()
    ));

    app.process_backend_messages(vec![msg], 0);

    assert!(!app.pending_deploy);
    match &app.telegram_setup_state.deploy_status {
        DeployStatus::Success(msg) => {
            assert!(msg.contains("deployed"));
        }
        other => panic!("Expected Success, got {:?}", other),
    }
}

#[test]
fn test_process_deploy_bot_error() {
    let mut app = App::new(true);
    app.screen = Screen::TelegramSetup;
    app.pending_deploy = true;

    let msg = BackendMsg::DeployBot(Err("connection refused".to_string()));

    app.process_backend_messages(vec![msg], 0);

    assert!(!app.pending_deploy);
    match &app.telegram_setup_state.deploy_status {
        DeployStatus::Error(msg) => {
            assert!(msg.contains("connection refused"));
        }
        other => panic!("Expected Error, got {:?}", other),
    }
}

#[test]
fn test_process_user_delete_error() {
    let mut app = App::new(true);
    app.screen = Screen::UserDetail;
    // Set up a user in the detail view matching the pending request
    app.user_detail_state.open(XrayUser {
        uuid: "some-uuid".to_string(),
        name: "testuser".to_string(),
        email: "testuser@vpn".to_string(),
        flow: "xtls-rprx-vision".to_string(),
        stats: Default::default(),
        online_count: 0,
    });
    app.pending_delete_uuid = Some("some-uuid".to_string());

    let msg = BackendMsg::UserDeleted(Err("not found".to_string()));

    app.process_backend_messages(vec![msg], 0);

    match &app.user_detail_state.mode {
        DetailMode::DeleteError(msg) => assert!(msg.contains("not found")),
        other => panic!("Expected DeleteError, got {:?}", other),
    }
}
