use amnezia_xray_admin::xray::answers::{
    parse_online_count, parse_online_ip_list, parse_stat_value, parse_version,
};
use amnezia_xray_admin::xray::client::ServerInfo;
use amnezia_xray_admin::xray::commands::{
    build_backup_cmd, build_backup_timestamped_cmd, build_inbound_stats_cmd,
    build_list_backups_cmd, build_online_cmd, build_online_ip_list_cmd, build_restore_cmd,
    build_rmu_cmd, build_stats_cmd, build_validate_backup_cmd, parse_backup_timestamps,
};
use amnezia_xray_admin::xray::types::VlessUrlParams;
use amnezia_xray_admin::xray::urls::{build_adu_json, generate_vless_url, urlencode_fragment};

// -- Backup command construction tests --

#[test]
fn test_build_backup_cmd() {
    let cmd = build_backup_cmd();
    assert!(cmd.contains("cp /opt/amnezia/xray/server.json /opt/amnezia/xray/server.json.bak"));
    assert!(
        cmd.contains("cp /opt/amnezia/xray/clientsTable /opt/amnezia/xray/clientsTable.bak")
    );
    // Both copies should be chained with &&
    assert!(cmd.contains("&&"));
}

#[test]
fn test_build_backup_cmd_copies_both_files() {
    let cmd = build_backup_cmd();
    // Must backup both server.json and clientsTable
    assert_eq!(cmd.matches("cp ").count(), 2);
}

#[test]
fn test_build_backup_timestamped_cmd() {
    let cmd = build_backup_timestamped_cmd();
    // Should use date command for timestamp
    assert!(cmd.contains("$(date +%Y%m%d-%H%M%S)") || cmd.contains("date +%Y%m%d-%H%M%S"));
    // Should backup both files
    assert!(cmd.contains("server.json"));
    assert!(cmd.contains("clientsTable"));
    // Should echo the timestamp for caller to capture
    assert!(cmd.contains("echo"));
}

#[test]
fn test_build_backup_timestamped_cmd_uses_same_timestamp() {
    let cmd = build_backup_timestamped_cmd();
    // Timestamp should be captured in a variable and reused for both files
    // to ensure both backups have the same timestamp
    assert!(cmd.contains("ts="));
    assert!(cmd.contains("\"$ts\""));
}

// -- Restore command/parsing tests --

#[test]
fn test_build_list_backups_cmd() {
    let cmd = build_list_backups_cmd();
    assert!(cmd.contains("ls -t"));
    assert!(cmd.contains("server.json.*.bak"));
    // Should not fail if no backups exist
    assert!(cmd.contains("|| true"));
}

#[test]
fn test_build_validate_backup_cmd() {
    let cmd = build_validate_backup_cmd("20260321-120000").unwrap();
    assert!(cmd.contains("test -f"));
    assert!(cmd.contains("clientsTable.20260321-120000.bak"));
}

#[test]
fn test_build_validate_backup_cmd_invalid() {
    assert!(build_validate_backup_cmd("not-a-timestamp").is_err());
}

#[test]
fn test_build_restore_cmd() {
    let cmd = build_restore_cmd("20260321-120000").unwrap();
    // Should restore both files
    assert!(cmd.contains("server.json.20260321-120000.bak"));
    assert!(cmd.contains("clientsTable.20260321-120000.bak"));
    // Should copy backups to originals
    assert!(cmd.contains("cp "));
    assert!(cmd.contains("&&"));
}

#[test]
fn test_build_restore_cmd_invalid() {
    assert!(build_restore_cmd("not-a-timestamp").is_err());
}

#[test]
fn test_parse_backup_timestamps_multiple() {
    let output = "/opt/amnezia/xray/server.json.20260321-120000.bak\n\
                   /opt/amnezia/xray/server.json.20260320-100000.bak\n\
                   /opt/amnezia/xray/server.json.20260319-080000.bak\n";
    let timestamps = parse_backup_timestamps(output);
    assert_eq!(
        timestamps,
        vec!["20260321-120000", "20260320-100000", "20260319-080000"]
    );
}

#[test]
fn test_parse_backup_timestamps_empty() {
    assert_eq!(parse_backup_timestamps(""), Vec::<String>::new());
}

#[test]
fn test_parse_backup_timestamps_no_matches() {
    let output = "some random output\n";
    assert_eq!(parse_backup_timestamps(output), Vec::<String>::new());
}

#[test]
fn test_parse_backup_timestamps_filters_non_timestamped() {
    // Should not include the plain .bak file (no timestamp)
    let output = "/opt/amnezia/xray/server.json.bak\n\
                   /opt/amnezia/xray/server.json.20260321-120000.bak\n";
    let timestamps = parse_backup_timestamps(output);
    assert_eq!(timestamps, vec!["20260321-120000"]);
}

#[test]
fn test_parse_backup_timestamps_invalid_format() {
    // Invalid timestamps should be filtered out
    let output = "/opt/amnezia/xray/server.json.not-a-timestamp.bak\n\
                   /opt/amnezia/xray/server.json.2026032.bak\n\
                   /opt/amnezia/xray/server.json.20260321-120000.bak\n";
    let timestamps = parse_backup_timestamps(output);
    assert_eq!(timestamps, vec!["20260321-120000"]);
}

#[test]
fn test_parse_backup_timestamps_preserves_order() {
    // ls -t gives newest first; we should preserve that order
    let output = "/opt/amnezia/xray/server.json.20260322-150000.bak\n\
                   /opt/amnezia/xray/server.json.20260321-120000.bak\n";
    let timestamps = parse_backup_timestamps(output);
    assert_eq!(timestamps[0], "20260322-150000");
    assert_eq!(timestamps[1], "20260321-120000");
}

// -- Command construction tests --

#[test]
fn test_build_adu_json() {
    let json = build_adu_json("test-uuid", "alice@vpn", "vless-in");
    let parsed: serde_json::Value = serde_json::from_str(&json).unwrap();

    assert_eq!(parsed["inboundTag"], "vless-in");
    let user = &parsed["user"];
    assert_eq!(user["email"], "alice@vpn");
    assert_eq!(user["level"], 0);
    let account = &user["account"];
    assert_eq!(account["id"], "test-uuid");
    assert_eq!(account["encryption"], "none");
    // No flow field
    assert!(account.get("flow").is_none());
}

#[test]
fn test_build_adu_json_special_chars_in_name() {
    let json = build_adu_json("uuid-123", "bob's-phone@vpn", "vless-in");
    // Should still be valid JSON
    let parsed: serde_json::Value = serde_json::from_str(&json).unwrap();
    assert_eq!(parsed["user"]["email"], "bob's-phone@vpn");
}

#[test]
fn test_build_rmu_cmd() {
    let cmd = build_rmu_cmd("alice@vpn").unwrap();
    assert_eq!(
        cmd,
        "xray api rmu -s 127.0.0.1:8080 -tag=vless-in 'alice@vpn'"
    );
}

#[test]
fn test_build_stats_cmd_uplink() {
    let cmd = build_stats_cmd("alice@vpn", "uplink").unwrap();
    assert_eq!(
        cmd,
        "xray api stats -s 127.0.0.1:8080 -name 'user>>>alice@vpn>>>traffic>>>uplink'"
    );
}

#[test]
fn test_build_stats_cmd_downlink() {
    let cmd = build_stats_cmd("alice@vpn", "downlink").unwrap();
    assert!(cmd.contains("user>>>alice@vpn>>>traffic>>>downlink"));
}

#[test]
fn test_build_inbound_stats_cmd() {
    let cmd = build_inbound_stats_cmd("vless-in", "uplink").unwrap();
    assert_eq!(
        cmd,
        "xray api stats -s 127.0.0.1:8080 -name 'inbound>>>vless-in>>>traffic>>>uplink'"
    );
}

#[test]
fn test_build_online_cmd() {
    let cmd = build_online_cmd("bob@vpn").unwrap();
    assert_eq!(
        cmd,
        "xray api statsonline -s 127.0.0.1:8080 -email 'bob@vpn'"
    );
}

#[test]
fn test_build_online_ip_list_cmd() {
    let cmd = build_online_ip_list_cmd("bob@vpn").unwrap();
    assert_eq!(
        cmd,
        "xray api statsonlineiplist -s 127.0.0.1:8080 -email 'bob@vpn'"
    );
}

#[test]
fn test_build_cmd_handles_special_chars() {
    // Names with brackets/parens/spaces should work (real Amnezia names)
    let cmd = build_rmu_cmd("Admin [macOS Tahoe (26.3.1)]@vpn").unwrap();
    assert!(cmd.contains("'Admin [macOS Tahoe (26.3.1)]@vpn'"));

    // Single quotes in names get escaped
    let cmd = build_rmu_cmd("a'b@vpn").unwrap();
    assert!(cmd.contains("'a'\\''b@vpn'"));
}

// -- Response parsing tests --

#[test]
fn test_parse_stat_value_basic() {
    let output = r#"stat: {
  name: "user>>>alice@vpn>>>traffic>>>downlink"
  value: 123456
}"#;
    assert_eq!(parse_stat_value(output), Some(123456));
}

#[test]
fn test_parse_stat_value_large_number() {
    let output = "stat: {\n  name: \"test\"\n  value: 9876543210\n}";
    assert_eq!(parse_stat_value(output), Some(9876543210));
}

#[test]
fn test_parse_stat_value_zero() {
    let output = "stat: {\n  name: \"test\"\n  value: 0\n}";
    assert_eq!(parse_stat_value(output), Some(0));
}

#[test]
fn test_parse_stat_value_negative_becomes_zero() {
    let output = "stat: {\n  name: \"test\"\n  value: -100\n}";
    assert_eq!(parse_stat_value(output), Some(0));
}

#[test]
fn test_parse_stat_value_empty_output() {
    assert_eq!(parse_stat_value(""), None);
}

#[test]
fn test_parse_stat_value_no_value_line() {
    let output = "stat: {\n  name: \"test\"\n}";
    assert_eq!(parse_stat_value(output), None);
}

#[test]
fn test_parse_stat_value_invalid_number() {
    let output = "stat: {\n  name: \"test\"\n  value: notanumber\n}";
    assert_eq!(parse_stat_value(output), None);
}

#[test]
fn test_parse_version_standard() {
    let output =
        "Xray 25.8.3 (Xray, Pair of Penetrating Rays) Custom (go1.22.5 linux/amd64)\nA unified platform for anti-censorship.";
    assert_eq!(parse_version(output), "25.8.3");
}

#[test]
fn test_parse_version_simple() {
    let output = "Xray 1.2.3\n";
    assert_eq!(parse_version(output), "1.2.3");
}

#[test]
fn test_parse_version_empty() {
    assert_eq!(parse_version(""), "unknown");
}

#[test]
fn test_parse_version_no_xray_prefix() {
    assert_eq!(parse_version("some other output"), "unknown");
}

// -- Online status parsing tests (JSON format from xray API) --

#[test]
fn test_parse_online_count_json() {
    let output = r#"{
    "stat": {
        "name": "user>>>alice@vpn>>>online",
        "value": 2
    }
}"#;
    assert_eq!(parse_online_count(output), Some(2));
}

#[test]
fn test_parse_online_count_json_zero() {
    let output = r#"{
    "stat": {
        "name": "user>>>alice@vpn>>>online",
        "value": 0
    }
}"#;
    assert_eq!(parse_online_count(output), Some(0));
}

#[test]
fn test_parse_online_count_json_negative_becomes_zero() {
    let output = r#"{
    "stat": {
        "name": "user>>>alice@vpn>>>online",
        "value": -1
    }
}"#;
    assert_eq!(parse_online_count(output), Some(0));
}

#[test]
fn test_parse_online_count_empty() {
    assert_eq!(parse_online_count(""), None);
}

#[test]
fn test_parse_online_count_proto_text_fallback() {
    // Fallback to proto text format for older xray versions
    let output = "stat: {\n  name: \"user>>>alice@vpn>>>online\"\n  value: 3\n}";
    assert_eq!(parse_online_count(output), Some(3));
}

#[test]
fn test_parse_online_ip_list_json() {
    let output = r#"{
    "name": "user>>>alice@vpn>>>online",
    "ips": {
        "1.2.3.4": 1711000000,
        "5.6.7.8": 1711000123
    }
}"#;
    let ips = parse_online_ip_list(output);
    assert_eq!(ips, vec!["1.2.3.4", "5.6.7.8"]);
}

#[test]
fn test_parse_online_ip_list_json_single() {
    let output = r#"{
    "name": "user>>>alice@vpn>>>online",
    "ips": {
        "10.0.0.1": 1711000000
    }
}"#;
    let ips = parse_online_ip_list(output);
    assert_eq!(ips, vec!["10.0.0.1"]);
}

#[test]
fn test_parse_online_ip_list_json_no_ips_field() {
    // When no users online, "ips" field is omitted
    let output = r#"{
    "name": "user>>>alice@vpn>>>online"
}"#;
    let ips = parse_online_ip_list(output);
    assert!(ips.is_empty());
}

#[test]
fn test_parse_online_ip_list_json_ipv6() {
    let output = r#"{
    "name": "user>>>alice@vpn>>>online",
    "ips": {
        "2001:db8::1": 1711000000
    }
}"#;
    let ips = parse_online_ip_list(output);
    assert_eq!(ips, vec!["2001:db8::1"]);
}

#[test]
fn test_parse_online_ip_list_empty() {
    assert_eq!(parse_online_ip_list(""), Vec::<String>::new());
}

#[test]
fn test_parse_online_ip_list_proto_text_fallback() {
    // Fallback to proto text format for older xray versions
    let output = r#"stat: {
  name: "user>>>alice@vpn>>>online>>>ip>>>1.2.3.4"
  value: 1700000000
}"#;
    let ips = parse_online_ip_list(output);
    assert_eq!(ips, vec!["1.2.3.4"]);
}

#[test]
fn test_parse_online_ip_list_proto_text_multiple() {
    let output = r#"stat: {
  name: "user>>>alice@vpn>>>online>>>ip>>>1.2.3.4"
  value: 1700000000
}
stat: {
  name: "user>>>alice@vpn>>>online>>>ip>>>5.6.7.8"
  value: 1700000001
}"#;
    let ips = parse_online_ip_list(output);
    assert_eq!(ips, vec!["1.2.3.4", "5.6.7.8"]);
}

// -- Integration-like tests for command/response roundtrip --

#[test]
fn test_adu_json_is_valid_for_api() {
    let json = build_adu_json(
        "550e8400-e29b-41d4-a716-446655440000",
        "testuser@vpn",
        "vless-in",
    );
    let parsed: serde_json::Value = serde_json::from_str(&json).unwrap();

    // Verify structure matches xray api adu format (no flow field)
    assert_eq!(parsed["inboundTag"], "vless-in");
    let user = &parsed["user"];
    assert!(user.get("email").is_some());
    let account = &user["account"];
    assert!(account.get("id").is_some());
    assert_eq!(account["encryption"], "none");
    // No flow field in account
    assert!(account.get("flow").is_none());
}

#[test]
fn test_stats_cmd_uses_correct_separator() {
    // Xray uses >>> as separator in stat names
    let cmd = build_stats_cmd("test@vpn", "uplink").unwrap();
    assert!(cmd.contains(">>>"));
    // Should have exactly 3 separators: user>>>email>>>traffic>>>direction
    let stat_name = cmd.split('\'').nth(1).unwrap();
    assert_eq!(stat_name.matches(">>>").count(), 3);
}

#[test]
fn test_inbound_stats_cmd_uses_correct_separator() {
    let cmd = build_inbound_stats_cmd("vless-in", "downlink").unwrap();
    let stat_name = cmd.split('\'').nth(1).unwrap();
    assert_eq!(stat_name.matches(">>>").count(), 3);
}

#[test]
fn test_server_info_default() {
    let info = ServerInfo::default();
    assert_eq!(info.version, "");
    assert_eq!(info.uplink, 0);
    assert_eq!(info.downlink, 0);
}

#[test]
fn test_parse_stat_value_with_whitespace() {
    let output = "  value:   42  \n";
    assert_eq!(parse_stat_value(output), Some(42));
}

#[test]
fn test_parse_stat_value_compact_json() {
    let output = r#"{"stat":{"name":"user>>>test@vpn>>>traffic>>>uplink","value":999}}"#;
    assert_eq!(parse_stat_value(output), Some(999));
}

#[test]
fn test_parse_stat_value_json_negative() {
    let output = r#"{"stat":{"name":"test","value":-5}}"#;
    assert_eq!(parse_stat_value(output), Some(0));
}

#[test]
fn test_parse_version_with_leading_whitespace() {
    let output = "  Xray 25.8.3 (something)\n";
    // Our parser trims lines
    assert_eq!(parse_version(output), "25.8.3");
}

// -- vless:// URL generation tests --

#[test]
fn test_generate_vless_url_basic() {
    let params = VlessUrlParams {
        uuid: "550e8400-e29b-41d4-a716-446655440000".to_string(),
        host: "1.2.3.4".to_string(),
        port: 443,
        sni: "www.googletagmanager.com".to_string(),
        public_key: "testpublickey123".to_string(),
        short_id: "abcd1234".to_string(),
        path: "/test".to_string(),
    };
    let url = generate_vless_url(&params);

    assert!(url.starts_with("vless://550e8400-e29b-41d4-a716-446655440000@1.2.3.4:443?"));
    assert!(url.contains("encryption=none"));
    assert!(url.contains("type=xhttp"));
    assert!(!url.contains("type=tcp"));
    assert!(!url.contains("flow="));
    assert!(url.contains("path="));
    assert!(url.contains("security=reality"));
    assert!(url.contains("sni=www.googletagmanager.com"));
    assert!(url.contains("fp=chrome"));
    assert!(url.contains("pbk=testpublickey123"));
    assert!(url.contains("sid=abcd1234"));
    assert!(url.ends_with("#LT-Xray"));
}

#[test]
fn test_generate_vless_url_exact_format() {
    let params = VlessUrlParams {
        uuid: "uuid-123".to_string(),
        host: "10.0.0.1".to_string(),
        port: 8443,
        sni: "example.com".to_string(),
        public_key: "pk123".to_string(),
        short_id: "sid1".to_string(),
        path: "/mypath".to_string(),
    };
    let expected = "vless://uuid-123@10.0.0.1:8443?encryption=none&type=xhttp&path=%2Fmypath&security=reality&sni=example.com&fp=chrome&pbk=pk123&sid=sid1#LT-Xray";
    assert_eq!(generate_vless_url(&params), expected);
}

#[test]
fn test_generate_vless_url_name_with_spaces() {
    let params = VlessUrlParams {
        uuid: "uuid-123".to_string(),
        host: "1.2.3.4".to_string(),
        port: 443,
        sni: "example.com".to_string(),
        public_key: "pk".to_string(),
        short_id: "sid".to_string(),
        path: "/".to_string(),
    };
    let url = generate_vless_url(&params);
    assert!(url.ends_with("#LT-Xray"));
}

#[test]
fn test_generate_vless_url_name_with_special_chars() {
    let params = VlessUrlParams {
        uuid: "uuid-123".to_string(),
        host: "1.2.3.4".to_string(),
        port: 443,
        sni: "example.com".to_string(),
        public_key: "pk".to_string(),
        short_id: "sid".to_string(),
        path: "/".to_string(),
    };
    let url = generate_vless_url(&params);
    // Apostrophe is allowed in fragments
    assert!(url.ends_with("#LT-Xray"));
}

#[test]
fn test_generate_vless_url_ipv6_host() {
    let params = VlessUrlParams {
        uuid: "uuid-123".to_string(),
        host: "2001:db8::1".to_string(),
        port: 443,
        sni: "example.com".to_string(),
        public_key: "pk".to_string(),
        short_id: "sid".to_string(),
        path: "/".to_string(),
    };
    let url = generate_vless_url(&params);
    assert!(url.contains("@[2001:db8::1]:443"));
}

#[test]
fn test_generate_vless_url_path_encoding() {
    let params = VlessUrlParams {
        uuid: "uuid-123".to_string(),
        host: "1.2.3.4".to_string(),
        port: 443,
        sni: "example.com".to_string(),
        public_key: "pk".to_string(),
        short_id: "sid".to_string(),
        path: "/abc123".to_string(),
    };
    let url = generate_vless_url(&params);
    assert!(url.contains("path=%2Fabc123"));
    assert!(!url.contains("flow="));
}

#[test]
fn test_urlencode_fragment_plain() {
    assert_eq!(urlencode_fragment("alice"), "alice");
}

#[test]
fn test_urlencode_fragment_spaces() {
    assert_eq!(urlencode_fragment("my phone"), "my%20phone");
}

#[test]
fn test_urlencode_fragment_unicode() {
    let encoded = urlencode_fragment("тест");
    assert!(encoded.contains('%'));
    assert!(!encoded.contains("тест"));
}

#[test]
fn test_urlencode_fragment_allowed_chars() {
    assert_eq!(urlencode_fragment("a-b_c.d~e"), "a-b_c.d~e");
}
