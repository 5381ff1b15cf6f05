use amnezia_xray_admin::json::Json;
use amnezia_xray_admin::xray::table::{merge_users, ClientsTable};
use amnezia_xray_admin::xray::types::{
    ClientEntry, ClientUserData, ServerConfig, ServerJsonClient, TrafficStats, XrayUser,
};


fn sample_server_json() -> &'static str {
    r#"{
        "inbounds": [
            {
                "listen": "0.0.0.0",
                "port": 443,
                "protocol": "vless",
                "settings": {
                    "clients": [
                        {
                            "id": "aaaaaaaa-1111-2222-3333-bbbbbbbbbbbb",
                            "flow": "xtls-rprx-vision"
                        },
                        {
                            "id": "cccccccc-4444-5555-6666-dddddddddddd",
                            "flow": "xtls-rprx-vision",
                            "email": "alice@vpn"
                        }
                    ],
                    "decryption": "none"
                },
                "streamSettings": {
                    "network": "tcp",
                    "security": "reality"
                }
            }
        ],
        "outbounds": [
            {"protocol": "freedom", "tag": "direct"}
        ]
    }"#
}

fn sample_clients_table() -> &'static str {
    r#"[
        {"clientId": "aaaaaaaa-1111-2222-3333-bbbbbbbbbbbb", "userData": {"clientName": "bob", "creationDate": ""}},
        {"clientId": "cccccccc-4444-5555-6666-dddddddddddd", "userData": {"clientName": "alice", "creationDate": ""}}
    ]"#
}

#[test]
fn test_server_config_parse_and_clients() {
    let config = ServerConfig::parse(sample_server_json()).unwrap();
    let clients = config.clients();
    assert_eq!(clients.len(), 2);
    assert_eq!(clients[0].id, "aaaaaaaa-1111-2222-3333-bbbbbbbbbbbb");
    assert_eq!(clients[0].flow, "xtls-rprx-vision");
    assert_eq!(clients[1].email, Some("alice@vpn".to_string()));
}

#[test]
fn test_server_config_roundtrip() {
    let config = ServerConfig::parse(sample_server_json()).unwrap();
    let json = config.to_json();
    let config2 = ServerConfig::parse(&json).unwrap();
    assert_eq!(config2.clients().len(), 2);
}

#[test]
fn test_server_config_add_client() {
    let mut config = ServerConfig::parse(sample_server_json()).unwrap();
    let new_client = ServerJsonClient {
        id: "eeeeeeee-7777-8888-9999-ffffffffffff".to_string(),
        flow: "xtls-rprx-vision".to_string(),
        email: Some("charlie@vpn".to_string()),
        level: Some(0),
    };
    config.add_client(&new_client).unwrap();
    let clients = config.clients();
    assert_eq!(clients.len(), 3);
    assert_eq!(clients[2].id, "eeeeeeee-7777-8888-9999-ffffffffffff");
    assert_eq!(clients[2].email, Some("charlie@vpn".to_string()));
}

#[test]
fn test_server_config_remove_client() {
    let mut config = ServerConfig::parse(sample_server_json()).unwrap();
    let removed = config
        .remove_client("aaaaaaaa-1111-2222-3333-bbbbbbbbbbbb")
        .unwrap();
    assert!(removed);
    assert_eq!(config.clients().len(), 1);
    assert_eq!(
        config.clients()[0].id,
        "cccccccc-4444-5555-6666-dddddddddddd"
    );
}

#[test]
fn test_server_config_update_client_email() {
    let mut config = ServerConfig::parse(sample_server_json()).unwrap();
    let updated = config
        .update_client_email("cccccccc-4444-5555-6666-dddddddddddd", "newalice@vpn")
        .unwrap();
    assert!(updated);
    let clients = config.clients();
    assert_eq!(clients[1].email, Some("newalice@vpn".to_string()));
    // First client should be unchanged
    assert_eq!(clients[0].email, None);
}

#[test]
fn test_server_config_update_client_email_nonexistent() {
    let mut config = ServerConfig::parse(sample_server_json()).unwrap();
    let updated = config
        .update_client_email("nonexistent-uuid", "test@vpn")
        .unwrap();
    assert!(!updated);
}

#[test]
fn test_server_config_update_client_email_adds_email_field() {
    // First client has no email field — updating should add one
    let mut config = ServerConfig::parse(sample_server_json()).unwrap();
    let updated = config
        .update_client_email("aaaaaaaa-1111-2222-3333-bbbbbbbbbbbb", "bob@vpn")
        .unwrap();
    assert!(updated);
    let clients = config.clients();
    assert_eq!(clients[0].email, Some("bob@vpn".to_string()));
}

#[test]
fn test_server_config_remove_nonexistent() {
    let mut config = ServerConfig::parse(sample_server_json()).unwrap();
    let removed = config.remove_client("nonexistent-uuid").unwrap();
    assert!(!removed);
    assert_eq!(config.clients().len(), 2);
}

#[test]
fn test_server_config_has_api() {
    let config = ServerConfig::parse(sample_server_json()).unwrap();
    assert!(!config.has_api());

    // Incomplete api section (missing services) should return false
    let incomplete = ServerConfig::parse(r#"{"api":{"tag":"api"},"inbounds":[]}"#).unwrap();
    assert!(!incomplete.has_api());

    // Missing one service should return false
    let partial = ServerConfig::parse(
        r#"{"api":{"tag":"api","services":["HandlerService"]},"inbounds":[]}"#,
    )
    .unwrap();
    assert!(!partial.has_api());

    // Complete api section should return true
    let with_api = ServerConfig::parse(
        r#"{"api":{"tag":"api","services":["HandlerService","StatsService"]},"inbounds":[]}"#,
    )
    .unwrap();
    assert!(with_api.has_api());

    // Wrong tag should return false even with correct services
    let wrong_tag = ServerConfig::parse(
        r#"{"api":{"tag":"wrong","services":["HandlerService","StatsService"]},"inbounds":[]}"#,
    )
    .unwrap();
    assert!(!wrong_tag.has_api());

    // Missing tag should return false
    let no_tag = ServerConfig::parse(
        r#"{"api":{"services":["HandlerService","StatsService"]},"inbounds":[]}"#,
    )
    .unwrap();
    assert!(!no_tag.has_api());
}

#[test]
fn test_clients_table_parse() {
    let table = ClientsTable::parse(sample_clients_table()).unwrap();
    assert_eq!(table.entries.len(), 2);
    assert_eq!(
        table.entries[0].client_id,
        "aaaaaaaa-1111-2222-3333-bbbbbbbbbbbb"
    );
    assert_eq!(table.entries[0].user_data.client_name, "bob");
}

#[test]
fn test_clients_table_name_for_uuid() {
    let table = ClientsTable::parse(sample_clients_table()).unwrap();
    assert_eq!(
        table.name_for_uuid("aaaaaaaa-1111-2222-3333-bbbbbbbbbbbb"),
        Some("bob")
    );
    assert_eq!(table.name_for_uuid("nonexistent"), None);
}

#[test]
fn test_clients_table_add() {
    let mut table = ClientsTable::parse(sample_clients_table()).unwrap();
    table.add("new-uuid".to_string(), "charlie".to_string());
    assert_eq!(table.entries.len(), 3);
    assert_eq!(table.name_for_uuid("new-uuid"), Some("charlie"));
}

#[test]
fn test_clients_table_remove() {
    let mut table = ClientsTable::parse(sample_clients_table()).unwrap();
    let removed = table.remove("aaaaaaaa-1111-2222-3333-bbbbbbbbbbbb");
    assert!(removed);
    assert_eq!(table.entries.len(), 1);
}

#[test]
fn test_clients_table_rename() {
    let mut table = ClientsTable::parse(sample_clients_table()).unwrap();
    let renamed = table.rename("aaaaaaaa-1111-2222-3333-bbbbbbbbbbbb", "robert");
    assert!(renamed);
    assert_eq!(
        table.name_for_uuid("aaaaaaaa-1111-2222-3333-bbbbbbbbbbbb"),
        Some("robert")
    );
}

#[test]
fn test_clients_table_rename_nonexistent() {
    let mut table = ClientsTable::parse(sample_clients_table()).unwrap();
    let renamed = table.rename("nonexistent", "newname");
    assert!(!renamed);
}

#[test]
fn test_clients_table_remove_nonexistent() {
    let mut table = ClientsTable::parse(sample_clients_table()).unwrap();
    let removed = table.remove("nonexistent");
    assert!(!removed);
    assert_eq!(table.entries.len(), 2);
}

#[test]
fn test_clients_table_roundtrip() {
    let table = ClientsTable::parse(sample_clients_table()).unwrap();
    let json = table.to_json();
    let table2 = ClientsTable::parse(&json).unwrap();
    assert_eq!(table.entries, table2.entries);
}

#[test]
fn test_merge_users() {
    let config = ServerConfig::parse(sample_server_json()).unwrap();
    let table = ClientsTable::parse(sample_clients_table()).unwrap();
    let users = merge_users(&config, &table);

    assert_eq!(users.len(), 2);

    // First user: bob (no email in server.json, derived from name)
    assert_eq!(users[0].name, "bob");
    assert_eq!(users[0].uuid, "aaaaaaaa-1111-2222-3333-bbbbbbbbbbbb");
    assert_eq!(users[0].email, "bob@vpn");
    assert_eq!(users[0].flow, "xtls-rprx-vision");

    // Second user: alice (has email in server.json)
    assert_eq!(users[1].name, "alice");
    assert_eq!(users[1].email, "alice@vpn");
}

#[test]
fn test_merge_users_unknown_uuid() {
    // Client in server.json but not in clientsTable
    let json = r#"{
        "inbounds": [{
            "protocol": "vless",
            "settings": {
                "clients": [{"id": "unknown-uuid", "flow": "xtls-rprx-vision"}]
            }
        }]
    }"#;
    let config = ServerConfig::parse(json).unwrap();
    let table = ClientsTable::parse("[]").unwrap();
    let users = merge_users(&config, &table);

    assert_eq!(users.len(), 1);
    assert_eq!(users[0].name, "unknown");
    assert_eq!(users[0].email, "unknown@vpn");
}

#[test]
fn test_email_from_name() {
    assert_eq!(XrayUser::email_from_name("alice"), "alice@vpn");
    assert_eq!(XrayUser::email_from_name("bob"), "bob@vpn");
}

#[test]
fn test_traffic_stats_default() {
    let stats = TrafficStats::default();
    assert_eq!(stats.uplink, 0);
    assert_eq!(stats.downlink, 0);
}

#[test]
fn test_client_entry_serde() {
    let entry = ClientEntry {
        client_id: "test-uuid".to_string(),
        user_data: ClientUserData {
            client_name: "test-name".to_string(),
            creation_date: String::new(),
        },
    };
    let json = ClientsTable { entries: vec![entry.clone()] }.to_json();
    assert!(json.contains("clientId"));
    assert!(json.contains("userData"));
    let parsed = ClientsTable::parse(&json).unwrap();
    assert_eq!(parsed.entries, vec![entry]);
}

#[test]
fn test_server_json_client_serde_minimal() {
    let json = r#"{"id": "some-uuid", "flow": "xtls-rprx-vision"}"#;
    let server = |clients: &str| {
        let text = format!(
            r#"{{"inbounds": [{{"protocol": "vless", "settings": {{"clients": [{}]}}}}]}}"#,
            clients
        );
        ServerConfig::parse(&text).unwrap()
    };
    let client = server(json).clients().remove(0);
    assert_eq!(client.id, "some-uuid");
    assert_eq!(client.email, None);
    assert_eq!(client.level, None);

    // Serialization should skip None fields
    let mut written = server("");
    written.add_client(&client).unwrap();
    let serialized = written.to_json();
    assert_eq!(written.clients(), vec![client]);
    assert!(!serialized.contains("email"));
    assert!(!serialized.contains("level"));
}

#[test]
fn test_reality_settings_extraction() {
    let json = r#"{
        "inbounds": [{
            "protocol": "vless",
            "settings": {"clients": []},
            "streamSettings": {
                "network": "tcp",
                "security": "reality",
                "realitySettings": {
                    "dest": "www.googletagmanager.com:443",
                    "serverNames": ["www.googletagmanager.com"],
                    "privateKey": "secret",
                    "shortIds": ["abcd1234", "ef567890"]
                }
            }
        }]
    }"#;
    let config = ServerConfig::parse(json).unwrap();
    let reality = config.reality_settings().unwrap();
    assert_eq!(reality.sni, "www.googletagmanager.com");
    assert_eq!(reality.short_id, "abcd1234");
}

#[test]
fn test_reality_settings_missing() {
    let json = r#"{
        "inbounds": [{
            "protocol": "vless",
            "settings": {"clients": []},
            "streamSettings": {"network": "tcp"}
        }]
    }"#;
    let config = ServerConfig::parse(json).unwrap();
    assert!(config.reality_settings().is_none());
}

#[test]
fn test_vless_port() {
    let config = ServerConfig::parse(sample_server_json()).unwrap();
    assert_eq!(config.vless_port(), Some(443));
}

#[test]
fn test_vless_port_missing() {
    let json = r#"{"inbounds": [{"protocol": "vless", "settings": {"clients": []}}]}"#;
    let config = ServerConfig::parse(json).unwrap();
    assert_eq!(config.vless_port(), None);
}

#[test]
fn test_no_vless_inbound_errors() {
    let json = r#"{"inbounds": [{"protocol": "vmess", "settings": {"clients": []}}]}"#;
    let mut config = ServerConfig::parse(json).unwrap();
    assert!(config.clients().is_empty());
    assert!(config
        .add_client(&ServerJsonClient {
            id: "x".into(),
            flow: "".into(),
            email: None,
            level: None,
        })
        .is_err());
    assert!(config.remove_client("x").is_err());
}
