use amnezia_xray_admin::config::Config;
use amnezia_xray_admin::telegram::keyboards::{
    build_user_keyboard, delete_confirmation_keyboard, format_empty_keyboard_message,
    format_selection_message, DELETE_CANCEL_PREFIX, DELETE_CONFIRM_PREFIX, DELETE_PREFIX,
    QR_PREFIX, URL_PREFIX,
};
use amnezia_xray_admin::telegram::talk::{is_admin, Command};
use amnezia_xray_admin::telegram::texts::{
    access_denied_text, format_add_message, format_delete_confirm_message,
    format_delete_success_message, format_status_message, format_url_message,
    format_users_message, help_text, validate_user_name, welcome_text,
};
use amnezia_xray_admin::xray::client::ServerInfo;
use amnezia_xray_admin::xray::types::{TrafficStats, XrayUser};

#[test]
fn test_help_text_contains_all_commands() {
    let text = help_text();
    assert!(text.contains("/add"));
    assert!(text.contains("/del"));
    assert!(text.contains("/config"));
    assert!(text.contains("/qr"));
    assert!(text.contains("/users"));
    assert!(text.contains("/status"));
    assert!(text.contains("/snapshot"));
    assert!(text.contains("/upgrade"));
}

#[test]
fn test_welcome_text() {
    let text = welcome_text();
    assert!(text.contains("Welcome, admin"));
    assert!(text.contains("/help"));
}

#[test]
fn test_access_denied_text() {
    let text = access_denied_text();
    assert!(text.contains("Access denied"));
    assert!(text.contains("administrator"));
}

#[test]
fn test_is_admin_no_admin_configured() {
    let config = Config::default();
    assert!(!is_admin(&config, 12345));
}

#[test]
fn test_is_admin_matching() {
    let mut config = Config::default();
    config.telegram_admin_chat_id = Some(12345);
    assert!(is_admin(&config, 12345));
}

#[test]
fn test_is_admin_wrong_user() {
    let mut config = Config::default();
    config.telegram_admin_chat_id = Some(12345);
    assert!(!is_admin(&config, 99999));
}

#[test]
fn test_bot_commands_parse() {
    let cmds = Command::bot_commands();
    let descriptions: String = cmds
        .iter()
        .map(|c| c.command.as_str())
        .collect::<Vec<_>>()
        .join(",");
    // teloxide BotCommand.command contains just the name (no slash)
    assert!(descriptions.contains("start"), "commands: {}", descriptions);
    assert!(descriptions.contains("help"), "commands: {}", descriptions);
    assert!(descriptions.contains("users"), "commands: {}", descriptions);
    assert!(
        descriptions.contains("status"),
        "commands: {}",
        descriptions
    );
    assert!(descriptions.contains("add"), "commands: {}", descriptions);
    assert!(descriptions.contains("del"), "commands: {}", descriptions);
    assert!(descriptions.contains("config"), "commands: {}", descriptions);
}

#[test]
fn test_help_text_not_empty() {
    let text = help_text();
    assert!(!text.is_empty());
    assert!(text.lines().count() >= 5);
}

#[test]
fn test_format_users_message_empty() {
    let text = format_users_message(&[]);
    assert_eq!(text, "No users found.");
}

#[test]
fn test_format_users_message_with_users() {
    let users = vec![
        (
            XrayUser {
                uuid: "aaaa-bbbb-cccc".to_string(),
                name: "Alice".to_string(),
                email: "Alice@vpn".to_string(),
                flow: "xtls-rprx-vision".to_string(),
                stats: TrafficStats::default(),
                online_count: 0,
            },
            TrafficStats {
                uplink: 1024 * 1024 * 100,
                downlink: 1024 * 1024 * 1024 * 2,
            },
            1,
        ),
        (
            XrayUser {
                uuid: "dddd-eeee-ffff".to_string(),
                name: "Bob".to_string(),
                email: "Bob@vpn".to_string(),
                flow: "xtls-rprx-vision".to_string(),
                stats: TrafficStats::default(),
                online_count: 0,
            },
            TrafficStats {
                uplink: 0,
                downlink: 0,
            },
            0,
        ),
    ];
    let text = format_users_message(&users);
    assert!(text.contains("Alice"), "text: {}", text);
    assert!(text.contains("Bob"), "text: {}", text);
    // Alice is online (count=1)
    assert!(text.contains("🟢 1"), "text: {}", text);
    // Bob is offline (count=0)
    assert!(text.contains("⚪"), "text: {}", text);
    // Traffic stats present
    assert!(text.contains("100.0 MB"), "text: {}", text);
    assert!(text.contains("2.0 GB"), "text: {}", text);
}

#[test]
fn test_format_users_message_unnamed_user() {
    let users = vec![(
        XrayUser {
            uuid: "12345678-abcd-efgh".to_string(),
            name: String::new(),
            email: "@vpn".to_string(),
            flow: String::new(),
            stats: TrafficStats::default(),
            online_count: 0,
        },
        TrafficStats::default(),
        0,
    )];
    let text = format_users_message(&users);
    // Should show truncated UUID for unnamed users
    assert!(text.contains("12345678"), "text: {}", text);
}

#[test]
fn test_format_status_message() {
    let info = ServerInfo {
        version: "1.8.4".to_string(),
        uplink: 1024 * 1024 * 500,
        downlink: 1024 * 1024 * 1024 * 10,
    };
    let text = format_status_message(&info, 5, 2, "Up 2 hours", Some("1.8.4"));
    assert!(text.contains("v1.8.4"), "text: {}", text);
    assert!(text.contains("✅"), "text: {}", text);
    assert!(text.contains("Up 2 hours"), "text: {}", text);
    assert!(text.contains("5"), "text: {}", text);
    assert!(text.contains("2 online"), "text: {}", text);
    assert!(text.contains("500.0 MB"), "text: {}", text);
    assert!(text.contains("10.0 GB"), "text: {}", text);
}

#[test]
fn test_format_status_message_update_available() {
    let info = ServerInfo {
        version: "1.8.0".to_string(),
        uplink: 0,
        downlink: 0,
    };
    let text = format_status_message(&info, 3, 0, "Up 5 minutes", Some("1.9.0"));
    assert!(text.contains("⬆️ v1.9.0"), "text: {}", text);
}

#[test]
fn test_format_status_message_zero_online() {
    let info = ServerInfo {
        version: "1.8.0".to_string(),
        uplink: 0,
        downlink: 0,
    };
    let text = format_status_message(&info, 3, 0, "", None);
    assert!(text.contains("0 online"), "text: {}", text);
    assert!(text.contains("3"), "text: {}", text);
}

// -- /add and /delete formatting tests --

#[test]
fn test_format_add_message() {
    let text = format_add_message(
        "Alice",
        "uuid-123",
        "vless://uuid-123@bridge:443?...",
        "vless://uuid-123@direct:443?...",
    );
    assert!(text.contains("Alice"), "text: {}", text);
    assert!(text.contains("uuid-123"), "text: {}", text);
    assert!(text.contains("vless://"), "text: {}", text);
    assert!(text.contains("✅"), "text: {}", text);
    assert!(text.contains("Для России"), "text: {}", text);
    assert!(text.contains("Из-за рубежа"), "text: {}", text);
}

#[test]
fn test_format_add_message_special_name() {
    let text = format_add_message("Bob's Phone [iOS]", "uuid-456", "vless://bridge...", "vless://direct...");
    assert!(text.contains("Bob's Phone [iOS]"), "text: {}", text);
}

#[test]
fn test_format_delete_confirm_message() {
    let text = format_delete_confirm_message("Alice");
    assert!(text.contains("Alice"), "text: {}", text);
    assert!(text.contains("⚠️"), "text: {}", text);
    assert!(text.contains("Delete"), "text: {}", text);
}

#[test]
fn test_format_delete_success_message() {
    let text = format_delete_success_message("Alice");
    assert!(text.contains("Alice"), "text: {}", text);
    assert!(text.contains("deleted"), "text: {}", text);
}

#[test]
fn test_validate_user_name_valid() {
    assert!(validate_user_name("Alice").is_none());
    assert!(validate_user_name("Bob's Phone").is_none());
    assert!(validate_user_name("Admin [macOS]").is_none());
    assert!(validate_user_name("a").is_none());
}

#[test]
fn test_validate_user_name_empty() {
    assert!(validate_user_name("").is_some());
    assert!(validate_user_name("   ").is_some());
}

#[test]
fn test_add_without_argument_shows_usage_hint() {
    // /add without argument passes empty string to validate_user_name,
    // which returns a usage hint instead of proceeding with add
    let result = validate_user_name("");
    assert_eq!(result, Some("Usage: /add <name>".to_string()));

    let result_whitespace = validate_user_name("   ");
    assert_eq!(result_whitespace, Some("Usage: /add <name>".to_string()));
}

#[test]
fn test_validate_user_name_too_long() {
    let long_name = "a".repeat(51);
    let result = validate_user_name(&long_name);
    assert!(result.is_some());
    assert!(result.unwrap().contains("too long"));
}

#[test]
fn test_delete_confirmation_keyboard() {
    let keyboard = delete_confirmation_keyboard("uuid-123");
    let buttons = &keyboard.inline_keyboard;
    assert_eq!(buttons.len(), 1, "should have one row");
    assert_eq!(buttons[0].len(), 2, "should have two buttons");

    // Check button text
    assert_eq!(buttons[0][0].text, "Yes, delete");
    assert_eq!(buttons[0][1].text, "Cancel");
}

#[test]
fn test_delete_confirmation_keyboard_callback_data() {
    let keyboard = delete_confirmation_keyboard("test-uuid-abc");
    let buttons = &keyboard.inline_keyboard;

    // Extract callback data from buttons
    let confirm_data = buttons[0][0].data.clone();
    let cancel_data = buttons[0][1].data.clone();

    assert_eq!(confirm_data, "delete_confirm:test-uuid-abc");
    assert_eq!(cancel_data, "delete_cancel:test-uuid-abc");
}

#[test]
fn test_validate_user_name_at_sign() {
    assert!(validate_user_name("foo@bar").is_some());
}

#[test]
fn test_validate_user_name_triple_arrow() {
    assert!(validate_user_name("foo>>>bar").is_some());
}

#[test]
fn test_validate_user_name_usage_hint() {
    let result = validate_user_name("").unwrap();
    assert!(result.contains("/add"), "result: {}", result);
}

// -- /url formatting tests --

#[test]
fn test_format_url_message() {
    let text = format_url_message("Alice", "vless://uuid@1.2.3.4:443?test=1#Alice");
    assert!(text.contains("Alice"), "text: {}", text);
    assert!(text.contains("vless://"), "text: {}", text);
    assert!(text.contains("🔗"), "text: {}", text);
}

#[test]
fn test_format_url_message_special_name() {
    let text = format_url_message("Bob's Phone [iOS]", "vless://...");
    assert!(text.contains("Bob's Phone [iOS]"), "text: {}", text);
}

#[test]
fn test_bot_commands_include_config_and_qr() {
    let cmds = Command::bot_commands();
    let descriptions: String = cmds
        .iter()
        .map(|c| c.command.as_str())
        .collect::<Vec<_>>()
        .join(",");
    assert!(descriptions.contains("config"), "commands: {}", descriptions);
    assert!(descriptions.contains("qr"), "commands: {}", descriptions);
}

// -- Inline keyboard / callback data tests --

#[test]
fn test_build_user_keyboard_url_prefix() {
    let users = vec![
        XrayUser {
            uuid: "uuid-1".to_string(),
            name: "Alice".to_string(),
            email: "Alice@vpn".to_string(),
            flow: String::new(),
            stats: TrafficStats::default(),
            online_count: 0,
        },
        XrayUser {
            uuid: "uuid-2".to_string(),
            name: "Bob".to_string(),
            email: "Bob@vpn".to_string(),
            flow: String::new(),
            stats: TrafficStats::default(),
            online_count: 0,
        },
    ];
    let result = build_user_keyboard(&users, URL_PREFIX);
    assert!(result.skipped_names.is_empty());
    assert_eq!(result.unnamed_count, 0);
    let buttons = &result.keyboard.inline_keyboard;
    assert_eq!(buttons.len(), 2, "should have two rows");
    assert_eq!(buttons[0][0].text, "Alice");
    assert_eq!(buttons[1][0].text, "Bob");

    // Verify callback data
    let alice_data = buttons[0][0].data.clone();
    let bob_data = buttons[1][0].data.clone();
    assert_eq!(alice_data, "url:Alice");
    assert_eq!(bob_data, "url:Bob");
}

#[test]
fn test_build_user_keyboard_skips_empty_names() {
    let users = vec![
        XrayUser {
            uuid: "uuid-1".to_string(),
            name: "Alice".to_string(),
            email: "Alice@vpn".to_string(),
            flow: String::new(),
            stats: TrafficStats::default(),
            online_count: 0,
        },
        XrayUser {
            uuid: "uuid-2".to_string(),
            name: String::new(),
            email: "@vpn".to_string(),
            flow: String::new(),
            stats: TrafficStats::default(),
            online_count: 0,
        },
    ];
    let result = build_user_keyboard(&users, "url:");
    let buttons = &result.keyboard.inline_keyboard;
    assert_eq!(buttons.len(), 1, "should skip unnamed user");
    assert_eq!(buttons[0][0].text, "Alice");
    assert_eq!(result.unnamed_count, 1);
}

#[test]
fn test_build_user_keyboard_empty_list() {
    let result = build_user_keyboard(&[], "url:");
    assert!(result.keyboard.inline_keyboard.is_empty());
    assert!(result.skipped_names.is_empty());
    assert_eq!(result.unnamed_count, 0);
}

#[test]
fn test_build_user_keyboard_different_prefixes() {
    let users = vec![XrayUser {
        uuid: "uuid-1".to_string(),
        name: "Alice".to_string(),
        email: "Alice@vpn".to_string(),
        flow: String::new(),
        stats: TrafficStats::default(),
        online_count: 0,
    }];

    for prefix in &["url:", "qr:", "delete:"] {
        let result = build_user_keyboard(&users, prefix);
        let data = result.keyboard.inline_keyboard[0][0].data.clone();
        assert_eq!(data, format!("{}Alice", prefix));
    }
}

#[test]
fn test_url_callback_data_parsing() {
    // Verify that URL_PREFIX correctly strips from callback data
    let callback_data = "url:Alice";
    let user_name = callback_data.strip_prefix(URL_PREFIX);
    assert_eq!(user_name, Some("Alice"));

    let callback_data = "url:Bob's Phone [iOS]";
    let user_name = callback_data.strip_prefix(URL_PREFIX);
    assert_eq!(user_name, Some("Bob's Phone [iOS]"));
}

#[test]
fn test_url_callback_data_no_match() {
    let callback_data = "qr:Alice";
    assert!(callback_data.strip_prefix(URL_PREFIX).is_none());
}

#[test]
fn test_qr_callback_data_parsing() {
    let callback_data = "qr:Alice";
    let user_name = callback_data.strip_prefix(QR_PREFIX);
    assert_eq!(user_name, Some("Alice"));

    let callback_data = "qr:Bob's Phone [iOS]";
    let user_name = callback_data.strip_prefix(QR_PREFIX);
    assert_eq!(user_name, Some("Bob's Phone [iOS]"));
}

#[test]
fn test_qr_callback_data_no_match() {
    let callback_data = "url:Alice";
    assert!(callback_data.strip_prefix(QR_PREFIX).is_none());

    let callback_data = "delete:Alice";
    assert!(callback_data.strip_prefix(QR_PREFIX).is_none());
}

#[test]
fn test_build_user_keyboard_qr_prefix() {
    let users = vec![
        XrayUser {
            uuid: "uuid-1".to_string(),
            name: "Alice".to_string(),
            email: "Alice@vpn".to_string(),
            flow: String::new(),
            stats: TrafficStats::default(),
            online_count: 0,
        },
        XrayUser {
            uuid: "uuid-2".to_string(),
            name: "Bob".to_string(),
            email: "Bob@vpn".to_string(),
            flow: String::new(),
            stats: TrafficStats::default(),
            online_count: 0,
        },
    ];
    let result = build_user_keyboard(&users, QR_PREFIX);
    assert!(result.skipped_names.is_empty());
    let buttons = &result.keyboard.inline_keyboard;
    assert_eq!(buttons.len(), 2);
    assert_eq!(buttons[0][0].text, "Alice");
    assert_eq!(buttons[1][0].text, "Bob");

    let alice_data = buttons[0][0].data.clone();
    let bob_data = buttons[1][0].data.clone();
    assert_eq!(alice_data, "qr:Alice");
    assert_eq!(bob_data, "qr:Bob");
}

#[test]
fn test_is_admin_negative_id() {
    // Telegram group chat IDs can be negative
    let mut config = Config::default();
    config.telegram_admin_chat_id = Some(-100123456);
    assert!(is_admin(&config, -100123456));
    assert!(!is_admin(&config, 100123456));
}

// -- /delete inline buttons tests --

#[test]
fn test_build_user_keyboard_delete_prefix() {
    let users = vec![
        XrayUser {
            uuid: "uuid-1".to_string(),
            name: "Alice".to_string(),
            email: "Alice@vpn".to_string(),
            flow: String::new(),
            stats: TrafficStats::default(),
            online_count: 0,
        },
        XrayUser {
            uuid: "uuid-2".to_string(),
            name: "Bob".to_string(),
            email: "Bob@vpn".to_string(),
            flow: String::new(),
            stats: TrafficStats::default(),
            online_count: 0,
        },
    ];
    let result = build_user_keyboard(&users, DELETE_PREFIX);
    assert!(result.skipped_names.is_empty());
    let buttons = &result.keyboard.inline_keyboard;
    assert_eq!(buttons.len(), 2);
    assert_eq!(buttons[0][0].text, "Alice");
    assert_eq!(buttons[1][0].text, "Bob");

    let alice_data = buttons[0][0].data.clone();
    let bob_data = buttons[1][0].data.clone();
    assert_eq!(alice_data, "delete:Alice");
    assert_eq!(bob_data, "delete:Bob");
}

#[test]
fn test_delete_callback_data_parsing() {
    // Verify DELETE_PREFIX correctly strips from callback data
    let callback_data = "delete:Alice";
    let user_name = callback_data.strip_prefix(DELETE_PREFIX);
    assert_eq!(user_name, Some("Alice"));

    let callback_data = "delete:Bob's Phone [iOS]";
    let user_name = callback_data.strip_prefix(DELETE_PREFIX);
    assert_eq!(user_name, Some("Bob's Phone [iOS]"));
}

#[test]
fn test_delete_callback_data_no_match() {
    let callback_data = "url:Alice";
    assert!(callback_data.strip_prefix(DELETE_PREFIX).is_none());

    let callback_data = "qr:Alice";
    assert!(callback_data.strip_prefix(DELETE_PREFIX).is_none());
}

#[test]
fn test_delete_prefix_does_not_match_confirm_cancel() {
    // "delete:" should NOT match "delete_confirm:" or "delete_cancel:"
    let confirm_data = "delete_confirm:uuid-123";
    assert!(confirm_data.strip_prefix(DELETE_PREFIX).is_none());

    let cancel_data = "delete_cancel:uuid-123";
    assert!(cancel_data.strip_prefix(DELETE_PREFIX).is_none());
}

#[test]
fn test_delete_confirm_cancel_prefixes_distinct() {
    // Verify all delete-related prefixes are distinct
    assert_ne!(DELETE_PREFIX, DELETE_CONFIRM_PREFIX);
    assert_ne!(DELETE_PREFIX, DELETE_CANCEL_PREFIX);
    assert_ne!(DELETE_CONFIRM_PREFIX, DELETE_CANCEL_PREFIX);

    // None is a prefix of another (important for strip_prefix correctness)
    assert!(!DELETE_CONFIRM_PREFIX.starts_with(DELETE_PREFIX));
    assert!(!DELETE_CANCEL_PREFIX.starts_with(DELETE_PREFIX));
}

#[test]
fn test_build_user_keyboard_skips_long_names() {
    // "delete:" is 7 bytes, so max name is 57 bytes
    let long_name = "a".repeat(58);
    let short_name = "Alice".to_string();
    let users = vec![
        XrayUser {
            uuid: "uuid-1".to_string(),
            name: short_name.clone(),
            email: "Alice@vpn".to_string(),
            flow: String::new(),
            stats: TrafficStats::default(),
            online_count: 0,
        },
        XrayUser {
            uuid: "uuid-2".to_string(),
            name: long_name.clone(),
            email: "long@vpn".to_string(),
            flow: String::new(),
            stats: TrafficStats::default(),
            online_count: 0,
        },
    ];
    let result = build_user_keyboard(&users, DELETE_PREFIX);
    assert_eq!(result.keyboard.inline_keyboard.len(), 1);
    assert_eq!(result.keyboard.inline_keyboard[0][0].text, "Alice");
    assert_eq!(result.skipped_names, vec![long_name]);
}

#[test]
fn test_build_user_keyboard_all_skipped() {
    let long_name = "a".repeat(61); // exceeds 64 bytes with "url:" prefix
    let users = vec![XrayUser {
        uuid: "uuid-1".to_string(),
        name: long_name.clone(),
        email: "long@vpn".to_string(),
        flow: String::new(),
        stats: TrafficStats::default(),
        online_count: 0,
    }];
    let result = build_user_keyboard(&users, URL_PREFIX);
    assert!(result.keyboard.inline_keyboard.is_empty());
    assert_eq!(result.skipped_names, vec![long_name]);
}

#[test]
fn test_build_user_keyboard_all_unnamed() {
    let users = vec![
        XrayUser {
            uuid: "uuid-1".to_string(),
            name: String::new(),
            email: "@vpn".to_string(),
            flow: String::new(),
            stats: TrafficStats::default(),
            online_count: 0,
        },
        XrayUser {
            uuid: "uuid-2".to_string(),
            name: String::new(),
            email: "@vpn".to_string(),
            flow: String::new(),
            stats: TrafficStats::default(),
            online_count: 0,
        },
    ];
    let result = build_user_keyboard(&users, URL_PREFIX);
    assert!(result.keyboard.inline_keyboard.is_empty());
    assert!(result.skipped_names.is_empty());
    assert_eq!(result.unnamed_count, 2);
}

#[test]
fn test_format_empty_keyboard_message_no_users() {
    let msg = format_empty_keyboard_message("/url <name>", &[], 0);
    assert_eq!(msg, "No users found.");
}

#[test]
fn test_format_empty_keyboard_message_unnamed_only() {
    let msg = format_empty_keyboard_message("/url <name>", &[], 3);
    assert!(msg.contains("3 user(s) have no name set"));
    assert!(msg.contains("/users"));
}

#[test]
fn test_format_empty_keyboard_message_skipped_and_unnamed() {
    let skipped = vec!["LongName".to_string()];
    let msg = format_empty_keyboard_message("/delete <name>", &skipped, 2);
    assert!(msg.contains("1 user(s) have names too long"));
    assert!(msg.contains("LongName"));
    assert!(msg.contains("2 user(s) have no name set"));
}

#[test]
fn test_format_selection_message_no_skipped() {
    let msg = format_selection_message("Select a user:", &[], 0);
    assert_eq!(msg, "Select a user:");
}

#[test]
fn test_format_selection_message_with_skipped() {
    let skipped = vec!["LongUserName".to_string()];
    let msg = format_selection_message("Select a user:", &skipped, 0);
    assert!(msg.contains("Select a user:"));
    assert!(msg.contains("LongUserName"));
    assert!(msg.contains("1 user(s)"));
}

#[test]
fn test_format_selection_message_with_unnamed() {
    let msg = format_selection_message("Select a user:", &[], 3);
    assert!(msg.contains("Select a user:"));
    assert!(msg.contains("3 unnamed user(s) not shown"));
    assert!(msg.contains("/users"));
}

#[test]
fn test_format_selection_message_with_skipped_and_unnamed() {
    let skipped = vec!["LongName".to_string()];
    let msg = format_selection_message("Select a user:", &skipped, 2);
    assert!(msg.contains("Select a user:"));
    assert!(msg.contains("LongName"));
    assert!(msg.contains("2 unnamed user(s) not shown"));
}
