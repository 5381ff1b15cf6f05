use amnezia_xray_admin::backend::{
    expand_key_path, parse_xray_version_from_json, resolve_connection_info, PUBLIC_KEY_PATH,
};
use amnezia_xray_admin::config::Config;
use amnezia_xray_admin::deploy::{Deploy, DeployReply, DeployTask};

/// Deploys the bot to a host that cannot be reached.
fn deploy(config: &Config, token: &str) -> Result<String, String> {
    let mut deploy = Deploy::start(config, token, "UNKNOWN_IP");
    while let Some(task) = deploy.task() {
        assert!(matches!(task, DeployTask::Connect));
        deploy = deploy.next(DeployReply::Connected(Err("connection refused".to_string())));
    }
    match deploy {
        Deploy::Done { message } => Ok(message),
        Deploy::Failed { message } => Err(message),
        other => panic!("not at an end: {:?}", other),
    }
}

#[test]
fn test_resolve_connection_with_host() {
    let config = Config {
        host: Some("1.2.3.4".to_string()),
        port: 2222,
        user: "admin".to_string(),
        key_path: None,
        ssh_host: None,
        container: "amnezia-xray".to_string(),
        telegram_token: None,
        telegram_admin_chat_id: None,
        bot_image: Default::default(),
        snapshot_dir: None,
        bridge_agent_url: None,
    };
    let (host, port, user, key) = resolve_connection_info(&config, &None, "/home/user").unwrap();
    assert_eq!(host, "1.2.3.4");
    assert_eq!(port, 2222);
    assert_eq!(user, "admin");
    assert!(key.is_none());
}

#[test]
fn test_resolve_connection_no_host() {
    let config = Config::default();
    let result = resolve_connection_info(&config, &None, "/home/user");
    assert!(result.is_err());
}

#[test]
fn test_resolve_connection_ssh_host_not_in_config() {
    let config = Config {
        ssh_host: Some("nonexistent-alias".to_string()),
        host: None,
        port: 22,
        user: "root".to_string(),
        key_path: None,
        container: "amnezia-xray".to_string(),
        telegram_token: None,
        telegram_admin_chat_id: None,
        bot_image: Default::default(),
        snapshot_dir: None,
        bridge_agent_url: None,
    };
    // Falls back to treating alias as hostname
    let (host, port, user, _key) = resolve_connection_info(&config, &None, "/home/user").unwrap();
    assert_eq!(host, "nonexistent-alias");
    assert_eq!(port, 22);
    assert_eq!(user, "root");
}

#[test]
fn test_resolve_connection_expands_tilde_in_key_path() {
    let config = Config {
        host: Some("1.2.3.4".to_string()),
        port: 22,
        user: "root".to_string(),
        key_path: Some("~/.ssh/id_ed25519".to_string()),
        ssh_host: None,
        container: "amnezia-xray".to_string(),
        telegram_token: None,
        telegram_admin_chat_id: None,
        bot_image: Default::default(),
        snapshot_dir: None,
        bridge_agent_url: None,
    };
    let (_host, _port, _user, key) = resolve_connection_info(&config, &None, "/home/user").unwrap();
    let key_path = key.expect("key_path should be Some");
    // Tilde should be expanded to the home directory
    assert!(
        !key_path.starts_with("~/"),
        "tilde should be expanded, got: {}",
        key_path
    );
    assert!(
        key_path.ends_with(".ssh/id_ed25519"),
        "path suffix should be preserved, got: {}",
        key_path
    );
}

#[test]
fn test_resolve_connection_absolute_key_path_unchanged() {
    let config = Config {
        host: Some("1.2.3.4".to_string()),
        port: 22,
        user: "root".to_string(),
        key_path: Some("/home/user/.ssh/id_rsa".to_string()),
        ssh_host: None,
        container: "amnezia-xray".to_string(),
        telegram_token: None,
        telegram_admin_chat_id: None,
        bot_image: Default::default(),
        snapshot_dir: None,
        bridge_agent_url: None,
    };
    let (_host, _port, _user, key) = resolve_connection_info(&config, &None, "/home/user").unwrap();
    let key_path = key.expect("key_path should be Some");
    assert_eq!(key_path, "/home/user/.ssh/id_rsa");
}

#[test]
fn test_expand_key_path_none() {
    assert!(expand_key_path(None, "/home/user").is_none());
}

#[test]
fn test_public_key_path_is_inside_container() {
    // The public key lives inside the Amnezia container (no bind mounts).
    // read_public_key() must use exec_in_container(), not exec_command().
    assert_eq!(PUBLIC_KEY_PATH, "/opt/amnezia/xray/xray_public.key");
    assert!(PUBLIC_KEY_PATH.starts_with("/opt/amnezia/"));
}

#[test]
fn test_parse_xray_version_valid() {
    let body = r#"{"tag_name":"v25.8.3","name":"v25.8.3"}"#;
    assert_eq!(parse_xray_version_from_json(body), Some("25.8.3".into()));
}

#[test]
fn test_parse_xray_version_no_v_prefix() {
    let body = r#"{"tag_name":"25.8.3"}"#;
    assert_eq!(parse_xray_version_from_json(body), Some("25.8.3".into()));
}

#[test]
fn test_parse_xray_version_missing_field() {
    let body = r#"{"name":"v25.8.3"}"#;
    assert_eq!(parse_xray_version_from_json(body), None);
}

#[test]
fn test_parse_xray_version_malformed_json() {
    assert_eq!(parse_xray_version_from_json("not json"), None);
    assert_eq!(parse_xray_version_from_json(""), None);
}

#[test]
fn test_parse_xray_version_rejects_non_semver() {
    // Rate-limit or error bodies, prerelease tags, etc. must not render as versions.
    let body = r#"{"tag_name":"rate limit exceeded"}"#;
    assert_eq!(parse_xray_version_from_json(body), None);
    let body = r#"{"tag_name":"v1.0-beta"}"#;
    assert_eq!(parse_xray_version_from_json(body), None);
    let body = r#"{"tag_name":"v"}"#;
    assert_eq!(parse_xray_version_from_json(body), None);
    let body = r#"{"tag_name":""}"#;
    assert_eq!(parse_xray_version_from_json(body), None);
}

#[test]
fn test_deploy_bot_requires_admin_id() {
    let config = Config {
        host: Some("1.2.3.4".to_string()),
        port: 22,
        user: "root".to_string(),
        key_path: None,
        ssh_host: None,
        container: "amnezia-xray".to_string(),
        telegram_token: None,
        telegram_admin_chat_id: None,
        bot_image: Default::default(), // no admin_id
        snapshot_dir: None,
        bridge_agent_url: None,
    };
    let result = deploy(&config, "123:abc");
    assert!(result.is_err());
    assert!(result.unwrap_err().contains("admin_id is required"));
}

#[test]
fn test_deploy_bot_with_admin_id_attempts_connection() {
    let config = Config {
        host: Some("192.0.2.1".to_string()), // non-routable IP
        port: 22,
        user: "root".to_string(),
        key_path: None,
        ssh_host: None,
        container: "amnezia-xray".to_string(),
        telegram_token: None,
        telegram_admin_chat_id: Some(123456789),
        bot_image: Default::default(),
        snapshot_dir: None,
        bridge_agent_url: None,
    };
    // With admin_id set, it should pass the admin_id check and fail at SSH connection
    let result = deploy(&config, "123:abc");
    assert!(result.is_err());
    // Should NOT be the "admin_id is required" error
    let err = result.unwrap_err();
    assert!(!err.contains("admin_id is required"), "got: {}", err);
}
