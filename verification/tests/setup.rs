use amnezia_xray_admin::config::Config;
use amnezia_xray_admin::ui::keys::{KeyCode, KeyEvent};
use amnezia_xray_admin::ui::setup::{SetupField, SetupState, TestResult};


fn make_key(code: KeyCode) -> KeyEvent {
    KeyEvent { code, shift: false, control: false }
}

fn make_shift_key(code: KeyCode) -> KeyEvent {
    KeyEvent { code, shift: true, control: false }
}

#[test]
fn test_default_state() {
    let state = SetupState::default();
    assert_eq!(state.focused, 0);
    assert_eq!(state.ssh_host, "");
    assert_eq!(state.host, "");
    assert_eq!(state.port, "22");
    assert_eq!(state.user, "root");
    assert_eq!(state.key_path, "");
    assert_eq!(state.container, "amnezia-xray");
    assert!(!state.save_requested);
    assert!(!state.test_requested);
    assert!(matches!(state.test_result, TestResult::Untested));
}

#[test]
fn test_from_config() {
    let config = Config {
        host: Some("1.2.3.4".to_string()),
        port: 2222,
        user: "admin".to_string(),
        key_path: Some("/home/.ssh/key".to_string()),
        ssh_host: Some("vps-vpn".to_string()),
        container: "my-xray".to_string(),
        telegram_token: None,
        telegram_admin_chat_id: None,
        bot_image: Default::default(),
        snapshot_dir: None,
        bridge_agent_url: None,
    };
    let state = SetupState::from_config(&config);
    assert_eq!(state.ssh_host, "vps-vpn");
    assert_eq!(state.host, "1.2.3.4");
    assert_eq!(state.port, "2222");
    assert_eq!(state.user, "admin");
    assert_eq!(state.key_path, "/home/.ssh/key");
    assert_eq!(state.container, "my-xray");
}

#[test]
fn test_from_config_defaults() {
    let config = Config::default();
    let state = SetupState::from_config(&config);
    assert_eq!(state.ssh_host, "");
    assert_eq!(state.host, "");
    assert_eq!(state.port, "22");
    assert_eq!(state.user, "root");
    assert_eq!(state.key_path, "");
    assert_eq!(state.container, "amnezia-xray");
}

#[test]
fn test_to_config() {
    let state = SetupState {
        ssh_host: "vps-vpn".to_string(),
        host: "1.2.3.4".to_string(),
        port: "2222".to_string(),
        user: "admin".to_string(),
        key_path: "/home/.ssh/key".to_string(),
        container: "my-xray".to_string(),
        ..Default::default()
    };
    let config = state.to_config();
    assert_eq!(config.host.as_deref(), Some("1.2.3.4"));
    assert_eq!(config.port, 2222);
    assert_eq!(config.user, "admin");
    assert_eq!(
        config.key_path,
        Some("/home/.ssh/key".to_string())
    );
    assert_eq!(config.ssh_host.as_deref(), Some("vps-vpn"));
    assert_eq!(config.container, "my-xray");
}

#[test]
fn test_to_config_empty_fields() {
    let state = SetupState {
        ssh_host: String::new(),
        host: String::new(),
        port: String::new(),
        user: String::new(),
        key_path: String::new(),
        container: String::new(),
        ..Default::default()
    };
    let config = state.to_config();
    assert_eq!(config.host, None);
    assert_eq!(config.port, 22); // invalid parse falls back to 22
    assert_eq!(config.user, "root");
    assert_eq!(config.key_path, None);
    assert_eq!(config.ssh_host, None);
    assert_eq!(config.container, "amnezia-xray");
}

#[test]
fn test_to_config_roundtrip() {
    let config = Config {
        host: Some("10.0.0.1".to_string()),
        port: 22,
        user: "root".to_string(),
        key_path: None,
        ssh_host: Some("myhost".to_string()),
        container: "amnezia-xray".to_string(),
        telegram_token: None,
        telegram_admin_chat_id: None,
        bot_image: Default::default(),
        snapshot_dir: None,
        bridge_agent_url: None,
    };
    let state = SetupState::from_config(&config);
    let result = state.to_config();
    assert_eq!(config, result);
}

#[test]
fn test_focus_next() {
    let mut state = SetupState::default();
    assert_eq!(state.focused, 0);
    state.focus_next();
    assert_eq!(state.focused, 1);
    state.focus_next();
    assert_eq!(state.focused, 2);
}

#[test]
fn test_focus_next_wraps() {
    let mut state = SetupState::default();
    state.focused = SetupField::all().len() - 1;
    state.focus_next();
    assert_eq!(state.focused, 0);
}

#[test]
fn test_focus_prev() {
    let mut state = SetupState::default();
    state.focused = 2;
    state.focus_prev();
    assert_eq!(state.focused, 1);
    state.focus_prev();
    assert_eq!(state.focused, 0);
}

#[test]
fn test_focus_prev_wraps() {
    let mut state = SetupState::default();
    assert_eq!(state.focused, 0);
    state.focus_prev();
    assert_eq!(state.focused, SetupField::all().len() - 1);
}

#[test]
fn test_tab_moves_focus_forward() {
    let mut state = SetupState::default();
    state.handle_key(make_key(KeyCode::Tab));
    assert_eq!(state.focused, 1);
}

#[test]
fn test_shift_tab_moves_focus_backward() {
    let mut state = SetupState::default();
    state.focused = 2;
    state.handle_key(make_shift_key(KeyCode::Tab));
    assert_eq!(state.focused, 1);
}

#[test]
fn test_backtab_moves_focus_backward() {
    let mut state = SetupState::default();
    state.focused = 2;
    state.handle_key(make_key(KeyCode::BackTab));
    assert_eq!(state.focused, 1);
}

#[test]
fn test_down_moves_focus_forward() {
    let mut state = SetupState::default();
    state.handle_key(make_key(KeyCode::Down));
    assert_eq!(state.focused, 1);
}

#[test]
fn test_up_moves_focus_backward() {
    let mut state = SetupState::default();
    state.focused = 3;
    state.handle_key(make_key(KeyCode::Up));
    assert_eq!(state.focused, 2);
}

#[test]
fn test_char_input_on_text_field() {
    let mut state = SetupState::default();
    // Focus is on SshHost (index 0)
    state.handle_key(make_key(KeyCode::Char('v')));
    state.handle_key(make_key(KeyCode::Char('p')));
    state.handle_key(make_key(KeyCode::Char('s')));
    assert_eq!(state.ssh_host, "vps");
}

#[test]
fn test_backspace_deletes_char() {
    let mut state = SetupState::default();
    state.ssh_host = "vps".to_string();
    state.handle_key(make_key(KeyCode::Backspace));
    assert_eq!(state.ssh_host, "vp");
}

#[test]
fn test_backspace_on_empty_field() {
    let mut state = SetupState::default();
    assert_eq!(state.ssh_host, "");
    state.handle_key(make_key(KeyCode::Backspace));
    assert_eq!(state.ssh_host, "");
}

#[test]
fn test_port_field_only_digits() {
    let mut state = SetupState::default();
    state.focused = 2; // Port field
    assert_eq!(state.focused_field(), SetupField::Port);
    state.port = String::new();
    state.handle_key(make_key(KeyCode::Char('2')));
    state.handle_key(make_key(KeyCode::Char('a'))); // rejected
    state.handle_key(make_key(KeyCode::Char('2')));
    assert_eq!(state.port, "22");
}

#[test]
fn test_enter_on_text_field_moves_next() {
    let mut state = SetupState::default();
    assert_eq!(state.focused, 0);
    state.handle_key(make_key(KeyCode::Enter));
    assert_eq!(state.focused, 1);
}

#[test]
fn test_enter_on_test_connection() {
    let mut state = SetupState::default();
    state.focused = 6; // TestConnection
    assert_eq!(state.focused_field(), SetupField::TestConnection);
    state.handle_key(make_key(KeyCode::Enter));
    assert!(state.test_requested);
    assert!(!state.save_requested);
}

#[test]
fn test_enter_on_save_and_start() {
    let mut state = SetupState::default();
    state.focused = 7; // SaveAndStart
    assert_eq!(state.focused_field(), SetupField::SaveAndStart);
    state.handle_key(make_key(KeyCode::Enter));
    assert!(state.save_requested);
    assert!(!state.test_requested);
}

#[test]
fn test_char_input_on_button_not_consumed() {
    let mut state = SetupState::default();
    state.focused = 6; // TestConnection button
    let consumed = state.handle_key(make_key(KeyCode::Char('x')));
    assert!(!consumed);
}

#[test]
fn test_focused_field() {
    let mut state = SetupState::default();
    assert_eq!(state.focused_field(), SetupField::SshHost);
    state.focused = 1;
    assert_eq!(state.focused_field(), SetupField::Host);
    state.focused = 7;
    assert_eq!(state.focused_field(), SetupField::SaveAndStart);
}

#[test]
fn setup_test_has_connection_info() {
    let mut state = SetupState::default();
    assert!(!state.has_connection_info());

    state.ssh_host = "vps-vpn".to_string();
    assert!(state.has_connection_info());

    state.ssh_host = String::new();
    state.host = "1.2.3.4".to_string();
    assert!(state.has_connection_info());
}

#[test]
fn test_field_labels_nonempty() {
    for field in SetupField::all() {
        assert!(!field.label().is_empty());
    }
}

#[test]
fn test_field_hints_nonempty() {
    for field in SetupField::all() {
        assert!(!field.hint().is_empty());
    }
}

#[test]
fn test_field_is_button() {
    assert!(!SetupField::SshHost.is_button());
    assert!(!SetupField::Host.is_button());
    assert!(!SetupField::Port.is_button());
    assert!(!SetupField::User.is_button());
    assert!(!SetupField::KeyPath.is_button());
    assert!(!SetupField::Container.is_button());
    assert!(SetupField::TestConnection.is_button());
    assert!(SetupField::SaveAndStart.is_button());
}

#[test]
fn test_typing_in_each_text_field() {
    let mut state = SetupState::default();

    // SshHost (0)
    state.focused = 0;
    state.handle_key(make_key(KeyCode::Char('a')));
    assert_eq!(state.ssh_host, "a");

    // Host (1)
    state.focused = 1;
    state.handle_key(make_key(KeyCode::Char('b')));
    assert_eq!(state.host, "b");

    // Port (2)
    state.focused = 2;
    state.port.clear();
    state.handle_key(make_key(KeyCode::Char('8')));
    assert_eq!(state.port, "8");

    // User (3)
    state.focused = 3;
    state.user.clear();
    state.handle_key(make_key(KeyCode::Char('r')));
    assert_eq!(state.user, "r");

    // KeyPath (4)
    state.focused = 4;
    state.handle_key(make_key(KeyCode::Char('/')));
    assert_eq!(state.key_path, "/");

    // Container (5)
    state.focused = 5;
    state.container.clear();
    state.handle_key(make_key(KeyCode::Char('x')));
    assert_eq!(state.container, "x");
}

#[test]
fn test_typing_clears_test_result() {
    let mut state = SetupState::default();
    state.test_result = TestResult::Success("Connected!".to_string());
    // Typing in a field should clear stale test result
    state.handle_key(make_key(KeyCode::Char('a')));
    assert!(matches!(state.test_result, TestResult::Untested));
}

#[test]
fn test_backspace_clears_test_result() {
    let mut state = SetupState::default();
    state.ssh_host = "vps".to_string();
    state.test_result = TestResult::Success("Connected!".to_string());
    state.handle_key(make_key(KeyCode::Backspace));
    assert!(matches!(state.test_result, TestResult::Untested));
}

#[test]
fn test_navigation_preserves_test_result() {
    let mut state = SetupState::default();
    state.test_result = TestResult::Success("Connected!".to_string());
    // Tab navigation should NOT clear test result
    state.handle_key(make_key(KeyCode::Tab));
    assert!(matches!(state.test_result, TestResult::Success(_)));
}
