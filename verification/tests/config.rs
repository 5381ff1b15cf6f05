use amnezia_xray_admin::config::{Cli, Config};

#[test]
fn test_default_config() {
    let config = Config::default();
    assert_eq!(config.host, None);
    assert_eq!(config.port, 22);
    assert_eq!(config.user, "root");
    assert_eq!(config.key_path, None);
    assert_eq!(config.ssh_host, None);
    assert_eq!(config.container, "amnezia-xray");
}

#[test]
fn test_merge_cli_all_fields() {
    let mut config = Config::default();
    let cli = Cli {
        host: Some("5.6.7.8".to_string()),
        port: Some(3333),
        user: Some("testuser".to_string()),
        key_path: Some("/tmp/key".to_string()),
        ssh_host: Some("alias".to_string()),
        container: Some("ctr".to_string()),
        list_users: false,
        check_server: false,
        user_url: None,
        user_qr: None,
        user_vpn: None,
        online_status: false,
        server_info: false,
        local: false,
        telegram_bot: false,
        telegram_token: None,
        deploy_bot: false,
        admin_id: None,
        backup: false,
        restore: None,
        add_user: None,
        rename_user: None,
        delete_user: None,
        yes: false,
        snapshot: false,
        snapshot_restore: None,
        snapshot_list: false,
        upgrade_xray: false,
        snapshot_dir: None,
        http_agent: false,
        secret: None,
        agent_port: 9090,
        bridge_agent_url: None,
    };
    config.merge_cli(&cli);

    assert_eq!(config.host.as_deref(), Some("5.6.7.8"));
    assert_eq!(config.port, 3333);
    assert_eq!(config.user, "testuser");
    assert_eq!(config.key_path, Some("/tmp/key".to_string()));
    assert_eq!(config.ssh_host.as_deref(), Some("alias"));
    assert_eq!(config.container, "ctr");
}

#[test]
fn test_merge_cli_partial_preserves_config() {
    let mut config = Config {
        host: Some("original.host".to_string()),
        port: 2222,
        user: "original".to_string(),
        key_path: Some("/original/key".to_string()),
        ssh_host: Some("original-alias".to_string()),
        container: "original-ctr".to_string(),
        telegram_token: None,
        telegram_admin_chat_id: None,
        bot_image: Default::default(),
        snapshot_dir: None,
        bridge_agent_url: None,
    };
    let cli = Cli {
        host: None,
        port: Some(4444),
        user: None,
        key_path: None,
        ssh_host: None,
        container: None,
        list_users: false,
        check_server: false,
        user_url: None,
        user_qr: None,
        user_vpn: None,
        online_status: false,
        server_info: false,
        local: false,
        telegram_bot: false,
        telegram_token: None,
        deploy_bot: false,
        admin_id: None,
        backup: false,
        restore: None,
        add_user: None,
        rename_user: None,
        delete_user: None,
        yes: false,
        snapshot: false,
        snapshot_restore: None,
        snapshot_list: false,
        upgrade_xray: false,
        snapshot_dir: None,
        http_agent: false,
        secret: None,
        agent_port: 9090,
        bridge_agent_url: None,
    };
    config.merge_cli(&cli);

    assert_eq!(config.host.as_deref(), Some("original.host"));
    assert_eq!(config.port, 4444);
    assert_eq!(config.user, "original");
    assert_eq!(config.key_path, Some("/original/key".to_string()));
    assert_eq!(config.ssh_host.as_deref(), Some("original-alias"));
    assert_eq!(config.container, "original-ctr");
}

#[test]
fn test_merge_cli_none_preserves_defaults() {
    let mut config = Config::default();
    let cli = Cli {
        host: None,
        port: None,
        user: None,
        key_path: None,
        ssh_host: None,
        container: None,
        list_users: false,
        check_server: false,
        user_url: None,
        user_qr: None,
        user_vpn: None,
        online_status: false,
        server_info: false,
        local: false,
        telegram_bot: false,
        telegram_token: None,
        deploy_bot: false,
        admin_id: None,
        backup: false,
        restore: None,
        add_user: None,
        rename_user: None,
        delete_user: None,
        yes: false,
        snapshot: false,
        snapshot_restore: None,
        snapshot_list: false,
        upgrade_xray: false,
        snapshot_dir: None,
        http_agent: false,
        secret: None,
        agent_port: 9090,
        bridge_agent_url: None,
    };
    config.merge_cli(&cli);
    assert_eq!(config, Config::default());
}

#[test]
fn config_test_has_connection_info() {
    let mut config = Config::default();
    assert!(!config.has_connection_info());

    config.host = Some("1.2.3.4".to_string());
    assert!(config.has_connection_info());

    config.host = None;
    config.ssh_host = Some("alias".to_string());
    assert!(config.has_connection_info());
}

/// A command line that asks for nothing.
fn cli() -> Cli {
    Cli {
        host: None,
        port: None,
        user: None,
        key_path: None,
        ssh_host: None,
        container: None,
        list_users: false,
        check_server: false,
        user_url: None,
        user_qr: None,
        user_vpn: None,
        online_status: false,
        server_info: false,
        local: false,
        telegram_bot: false,
        telegram_token: None,
        deploy_bot: false,
        admin_id: None,
        backup: false,
        restore: None,
        add_user: None,
        rename_user: None,
        delete_user: None,
        yes: false,
        snapshot: false,
        snapshot_restore: None,
        snapshot_list: false,
        upgrade_xray: false,
        snapshot_dir: None,
        http_agent: false,
        secret: None,
        agent_port: 9090,
        bridge_agent_url: None,
    }
}

#[test]
fn test_admin_id_merged_into_config() {
    let mut config = Config::default();
    assert_eq!(config.telegram_admin_chat_id, None);

    let cli = Cli { admin_id: Some(999), ..cli() };
    config.merge_cli(&cli);
    assert_eq!(config.telegram_admin_chat_id, Some(999));
}
