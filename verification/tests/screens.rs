use amnezia_xray_admin::app::keys::is_valid_token;
use amnezia_xray_admin::app::messages::same_config;
use amnezia_xray_admin::app::{chrono_free_timestamp, App, Effect, Screen};
use amnezia_xray_admin::backend::{AddedUser, BackendMsg, DashboardData, VlessUrlIntent};
use amnezia_xray_admin::config::Config;
use amnezia_xray_admin::ui::keys::{KeyCode, KeyEvent};
use amnezia_xray_admin::ui::setup::TestResult;
use amnezia_xray_admin::ui::states::{AddUserResult, DeployStatus, DetailMode};
use amnezia_xray_admin::xray::client::ServerInfo;
use amnezia_xray_admin::xray::types::{TrafficStats, XrayUser};

fn key(code: KeyCode) -> KeyEvent {
    KeyEvent { code, shift: false, control: false }
}

fn press(app: &mut App, code: KeyCode) -> Vec<Effect> {
    app.handle_key(key(code), false, None)
}

fn user(id: &str) -> XrayUser {
    XrayUser {
        uuid: id.to_string(),
        name: format!("name-{}", id),
        email: format!("{}@vpn", id),
        flow: String::new(),
        stats: TrafficStats { uplink: 0, downlink: 0 },
        online_count: 0,
    }
}

fn connected() -> App {
    App::with_config(Config { host: Some("h".to_string()), ..Config::default() })
}

fn data(fetched: bool, latest: Option<&str>) -> BackendMsg {
    BackendMsg::DashboardData(Ok(DashboardData {
        users: vec![user("u1")],
        server_info: ServerInfo { version: "1.0".to_string(), uplink: 1, downlink: 2 },
        container_uptime: "Up".to_string(),
        latest_version: latest.map(str::to_string),
        version_was_fetched: fetched,
    }))
}

fn say(app: &mut App, m: BackendMsg) -> Vec<Effect> {
    app.process_backend_message(m, 3723)
}

fn added(uuid: &str, url: &str) -> AddedUser {
    AddedUser { name: "n".to_string(), uuid: uuid.to_string(), vless_url: url.to_string() }
}

fn is_fetch(e: &[Effect]) -> bool {
    e.len() == 1 && matches!(e[0], Effect::FetchDashboard { .. })
}

#[test]
fn the_first_load_begins_at_once() {
    let mut app = connected();
    let e = app.begin();
    assert!(
        matches!(e[0], Effect::FetchDashboard { api_check_done: false, fetch_version: true })
    );
    assert!(app.pending_refresh);
    let mut app = App::new(false);
    assert!(app.begin().is_empty());
}

#[test]
fn one_fetch_runs_at_a_time() {
    let mut app = connected();
    assert!(is_fetch(&app.begin()));
    assert!(press(&mut app, KeyCode::Char('r')).is_empty());
    assert!(app.tick(60_000).is_empty());
    let e = say(&mut app, data(true, Some("1.1")));
    assert!(matches!(&e[0], Effect::ShowUsers(u) if u.len() == 1));
    assert_eq!(app.dashboard_state.latest_version.as_deref(), Some("1.1"));
    assert!(app.tick(4_999).is_empty());
    let e = app.tick(5_000);
    assert!(
        matches!(e[0], Effect::FetchDashboard { api_check_done: true, fetch_version: false })
    );
}

#[test]
fn a_known_version_is_kept() {
    let mut app = connected();
    app.begin();
    say(&mut app, data(true, Some("1.1")));
    app.tick(5_000);
    say(&mut app, data(false, None));
    assert_eq!(app.dashboard_state.latest_version.as_deref(), Some("1.1"));
}

#[test]
fn the_clock_is_that_of_the_day() {
    assert_eq!(chrono_free_timestamp(86_400 + 3_723), "01:02:03 UTC");
    assert_eq!(chrono_free_timestamp(86_399), "23:59:59 UTC");
}

#[test]
fn the_selection_is_moved_by_keys() {
    let mut app = connected();
    assert!(matches!(press(&mut app, KeyCode::Down)[0], Effect::SelectNext));
    assert!(matches!(press(&mut app, KeyCode::Char('j'))[0], Effect::SelectNext));
    assert!(matches!(press(&mut app, KeyCode::Up)[0], Effect::SelectPrevious));
    assert!(matches!(press(&mut app, KeyCode::Char('k'))[0], Effect::SelectPrevious));
}

fn detail(code: KeyCode) -> App {
    let mut app = connected();
    let e = app.handle_key(key(code), false, Some(&user("u1")));
    assert!(
        matches!(&e[0], Effect::FetchOnlineIps { uuid, email } if uuid == "u1" && email == "u1@vpn")
    );
    assert_eq!(app.screen, Screen::UserDetail);
    app
}

#[test]
fn a_user_is_opened() {
    assert_eq!(detail(KeyCode::Enter).user_detail_state.mode, DetailMode::View);
    assert_eq!(detail(KeyCode::Char('d')).user_detail_state.mode, DetailMode::DeleteConfirm);
    let mut app = connected();
    assert!(press(&mut app, KeyCode::Enter).is_empty());
    assert_eq!(app.screen, Screen::Dashboard);
}

#[test]
fn a_url_is_copied_once_it_is_known() {
    let mut app = detail(KeyCode::Enter);
    app.user_detail_state.clipboard_copied = true;
    let e = app.handle_key(key(KeyCode::Char('c')), true, None);
    assert!(
        matches!(&e[0], Effect::VlessUrl { uuid, intent: VlessUrlIntent::Clipboard, .. } if uuid == "u1")
    );
    assert_eq!(app.status_message, "Generating URL...");
    let e = say(&mut app, BackendMsg::VlessUrl(Ok(added("u1", "U")), VlessUrlIntent::Clipboard));
    assert!(matches!(&e[0], Effect::Copy(u) if u == "U"));
    app.user_detail_state.clipboard_copied = true;
    let e = app.handle_key(key(KeyCode::Char('c')), true, None);
    assert!(matches!(&e[0], Effect::Copy(u) if u == "U"));
    assert_eq!(app.status_message, "Copied to clipboard (OSC 52)");
}

#[test]
fn a_code_is_shown_once_the_url_is_known() {
    let mut app = detail(KeyCode::Enter);
    let e = press(&mut app, KeyCode::Char('q'));
    assert!(matches!(&e[0], Effect::VlessUrl { intent: VlessUrlIntent::Qr, .. }));
    say(&mut app, BackendMsg::VlessUrl(Ok(added("u1", "U")), VlessUrlIntent::Qr));
    assert_eq!(app.screen, Screen::QrView);
    assert_eq!(app.qr_view_state.shown, Some(("n".to_string(), "U".to_string())));
    press(&mut app, KeyCode::Char('q'));
    assert_eq!(app.screen, Screen::Dashboard);
    assert_eq!(app.qr_view_state.shown, None);
}

fn confirm_delete(app: &mut App) -> Vec<Effect> {
    app.user_detail_state.delete_confirmed = true;
    app.handle_key(key(KeyCode::Char('y')), true, None)
}

#[test]
fn one_change_runs_at_a_time() {
    let mut app = detail(KeyCode::Char('d'));
    let e = confirm_delete(&mut app);
    assert!(matches!(&e[0], Effect::DeleteUser(u) if u == "u1"));
    assert_eq!(app.status_message, "Deleting user 'name-u1'...");
    assert!(confirm_delete(&mut app).is_empty());

    app.screen = Screen::AddUser;
    app.add_user_state.name = "x".to_string();
    app.add_user_state.confirmed = true;
    assert!(app.handle_key(key(KeyCode::Enter), true, None).is_empty());
}

#[test]
fn a_deletion_is_followed_by_a_fetch() {
    let mut app = detail(KeyCode::Char('d'));
    confirm_delete(&mut app);
    let e = say(&mut app, BackendMsg::UserDeleted(Ok("u1".to_string())));
    assert!(is_fetch(&e));
    assert_eq!(app.user_detail_state.mode, DetailMode::DeleteSuccess);
    press(&mut app, KeyCode::Char('x'));
    assert_eq!(app.screen, Screen::Dashboard);
}

#[test]
fn a_change_during_a_fetch_is_fetched_afterwards() {
    let mut app = detail(KeyCode::Char('d'));
    confirm_delete(&mut app);
    assert!(is_fetch(&app.trigger_refresh()));
    assert!(say(&mut app, BackendMsg::UserDeleted(Ok("u1".to_string()))).is_empty());
    assert!(app.refresh_after_mutation);
    let e = say(&mut app, data(true, None));
    assert!(matches!(e.last(), Some(Effect::FetchDashboard { .. })));
}

#[test]
fn a_user_is_added_from_the_screen() {
    let mut app = connected();
    press(&mut app, KeyCode::Char('a'));
    app.add_user_state.name = " carol ".to_string();
    app.add_user_state.confirmed = true;
    let e = app.handle_key(key(KeyCode::Enter), true, None);
    assert!(matches!(&e[0], Effect::AddUser(n) if n == "carol"));
    assert_eq!(app.status_message, "Adding user 'carol'...");
    let long = "e".repeat(80);
    say(&mut app, BackendMsg::UserAdded(Err(long)));
    assert!(matches!(&app.add_user_state.result, AddUserResult::Error(m) if m.ends_with("...")));
    assert_eq!(app.pending_add_name, None);
}

#[test]
fn late_results_do_not_disturb() {
    let mut app = detail(KeyCode::Enter);
    let ips = BackendMsg::OnlineIps(Ok(("other".to_string(), vec!["1.1.1.1".to_string()])));
    say(&mut app, ips);
    assert!(app.user_detail_state.online_ips.is_empty());
    let ips = BackendMsg::OnlineIps(Ok(("u1".to_string(), vec!["1.1.1.1".to_string()])));
    say(&mut app, ips);
    assert_eq!(app.user_detail_state.online_ips, vec!["1.1.1.1"]);
    say(&mut app, BackendMsg::OnlineIps(Err(("u1".to_string(), "x".to_string()))));
    assert_eq!(app.user_detail_state.online_ips_error.as_deref(), Some("x"));
    say(&mut app, BackendMsg::DeployProgress(DeployStatus::Verifying));
    assert!(matches!(app.telegram_setup_state.deploy_status, DeployStatus::Idle));
}

#[test]
fn the_setup_is_saved_with_the_bot() {
    let config = Config {
        telegram_token: Some("1:t".to_string()),
        telegram_admin_chat_id: Some(9),
        ..Config::default()
    };
    let mut app = App::with_config(config);
    assert_eq!(app.screen, Screen::Setup);
    app.setup_state.focused = 7;
    assert!(press(&mut app, KeyCode::Enter).is_empty());
    assert!(
        matches!(&app.setup_state.test_result, TestResult::Error(m) if m == "Please enter a host or SSH config alias")
    );
    app.setup_state.host = "h".to_string();
    app.setup_state.focused = 7;
    let mut e = press(&mut app, KeyCode::Enter);
    let new = match e.remove(0) {
        Effect::SaveSetup(c) => c,
        other => panic!("{:?}", other),
    };
    assert_eq!(new.telegram_token.as_deref(), Some("1:t"));
    assert_eq!(new.telegram_admin_chat_id, Some(9));
    let e = app.setup_saved(new, Ok(()));
    assert!(is_fetch(&e));
    assert_eq!(app.screen, Screen::Dashboard);
    assert_eq!(app.dashboard_state.server_host, "h");
    assert_eq!(app.status_message, "Config saved. Connecting...");
}

#[test]
fn a_setup_that_cannot_be_saved_stays() {
    let mut app = App::new(false);
    app.setup_state.host = "h".to_string();
    app.setup_state.focused = 7;
    let mut e = press(&mut app, KeyCode::Enter);
    if let Effect::SaveSetup(c) = e.remove(0) {
        assert!(app.setup_saved(c, Err("full".to_string())).is_empty());
    }
    assert_eq!(app.screen, Screen::Setup);
    assert!(
        matches!(&app.setup_state.test_result, TestResult::Error(m) if m == "Save failed: full")
    );
}

#[test]
fn one_test_runs_at_a_time() {
    let mut app = App::new(false);
    app.setup_state.host = "h".to_string();
    app.setup_state.focused = 6;
    let e = press(&mut app, KeyCode::Enter);
    assert!(matches!(&e[0], Effect::TestConnection(c) if c.host.as_deref() == Some("h")));
    assert!(matches!(app.setup_state.test_result, TestResult::Testing));
    app.setup_state.focused = 6;
    assert!(press(&mut app, KeyCode::Enter).is_empty());
    say(&mut app, BackendMsg::ConnectionTest(Ok("Xray 1".to_string())));
    assert!(matches!(&app.setup_state.test_result, TestResult::Success(_)));
    assert!(!app.pending_test);
}

fn telegram(token: &str, id: &str) -> App {
    let mut app = connected();
    press(&mut app, KeyCode::Char('t'));
    app.telegram_setup_state.token = token.to_string();
    app.telegram_setup_state.admin_id = id.to_string();
    app.telegram_setup_state.deploy_requested = true;
    app
}

#[test]
fn the_bot_is_deployed_once_its_settings_are_saved() {
    let mut app = telegram(" 12:ab ", " 42 ");
    let e = press(&mut app, KeyCode::Enter);
    assert!(matches!(&e[0], Effect::SaveTelegram(t) if t == "12:ab"));
    assert_eq!(app.config.telegram_admin_chat_id, Some(42));
    let e = app.telegram_saved("12:ab".to_string(), Ok(()));
    assert!(matches!(&e[0], Effect::DeployBot(t) if t == "12:ab"));
    assert!(app.pending_deploy);
    say(&mut app, BackendMsg::DeployProgress(DeployStatus::Verifying));
    assert!(matches!(app.telegram_setup_state.deploy_status, DeployStatus::Verifying));
}

#[test]
fn one_deployment_runs_at_a_time() {
    let mut app = telegram("12:ab", "42");
    press(&mut app, KeyCode::Enter);
    app.telegram_saved("12:ab".to_string(), Ok(()));
    app.telegram_setup_state.deploy_requested = true;
    assert!(press(&mut app, KeyCode::Enter).is_empty());
    say(&mut app, BackendMsg::DeployBot(Err("no".to_string())));
    assert!(!app.pending_deploy);
    assert_eq!(app.status_message, "Deploy failed: no");
}

#[test]
fn settings_of_the_bot_are_checked() {
    let status = |app: &App| match &app.telegram_setup_state.deploy_status {
        DeployStatus::Error(m) => m.clone(),
        other => panic!("{:?}", other),
    };
    let mut app = telegram("nonsense", "42");
    assert!(press(&mut app, KeyCode::Enter).is_empty());
    assert_eq!(status(&app), "Invalid token format (expected digits:secret)");
    let mut app = telegram("12:ab", "me");
    assert!(press(&mut app, KeyCode::Enter).is_empty());
    assert_eq!(status(&app), "Invalid Admin ID (must be a number)");
    let mut app = telegram("12:ab", "42");
    press(&mut app, KeyCode::Enter);
    assert!(app.telegram_saved("12:ab".to_string(), Err("full".to_string())).is_empty());
    assert_eq!(status(&app), "Config save failed: full");
}

#[test]
fn tokens_are_digits_and_a_secret() {
    assert!(is_valid_token("123:ABC-def_1"));
    assert!(!is_valid_token("123:"));
    assert!(!is_valid_token(":abc"));
    assert!(!is_valid_token("12a:bc"));
    assert!(!is_valid_token(""));
}

#[test]
fn the_status_bar_shows_the_message_before_the_keys() {
    let mut app = App::new(true);
    assert_eq!(app.status_bar(), app.keybind_hints());
    app.status_message = "m".to_string();
    assert_eq!(app.status_bar(), format!("m | {}", app.keybind_hints()));
}

#[test]
fn configurations_are_compared_by_every_field() {
    let a = Config::default();
    assert!(same_config(&a, &Config::default()));
    assert!(!same_config(&a, &Config { bot_image: "x".to_string(), ..Config::default() }));
    assert!(!same_config(&a, &Config { telegram_admin_chat_id: Some(1), ..Config::default() }));
}
