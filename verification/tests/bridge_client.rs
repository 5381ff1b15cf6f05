use amnezia_xray_admin::bridge_client::{parse_bridge_online, parse_bridge_stats};

#[test]
fn test_parse_bridge_online_basic() {
    let json =
        r#"{"users":[{"email":"alex@vpn","online":2},{"email":"kostya@vpn","online":0}]}"#;
    let result = parse_bridge_online(json);
    assert_eq!(result.len(), 2);
    let alex = result.iter().find(|(e, _)| e == "alex@vpn").unwrap();
    assert_eq!(alex.1, 2);
    let kostya = result.iter().find(|(e, _)| e == "kostya@vpn").unwrap();
    assert_eq!(kostya.1, 0);
}

#[test]
fn test_parse_bridge_online_empty() {
    let result = parse_bridge_online(r#"{"users":[]}"#);
    assert!(result.is_empty());
}

#[test]
fn test_parse_bridge_online_malformed() {
    let result = parse_bridge_online("not json");
    assert!(result.is_empty());
}

#[test]
fn test_parse_bridge_stats_empty() {
    let result = parse_bridge_stats("{}");
    assert!(result.is_empty());
}

#[test]
fn test_parse_bridge_stats_basic() {
    let json = r#"{"stat":[
            {"name":"user>>>alice@vpn>>>traffic>>>uplink","value":"1024"},
            {"name":"user>>>alice@vpn>>>traffic>>>downlink","value":"4096"},
            {"name":"user>>>bob@vpn>>>traffic>>>uplink","value":"512"}
        ]}"#;
    let mut result = parse_bridge_stats(json);
    result.sort_by(|a, b| a.0.cmp(&b.0));
    assert_eq!(result.len(), 2);
    let alice = result.iter().find(|(e, _, _)| e == "alice@vpn").unwrap();
    assert_eq!(alice.1, 1024);
    assert_eq!(alice.2, 4096);
    let bob = result.iter().find(|(e, _, _)| e == "bob@vpn").unwrap();
    assert_eq!(bob.1, 512);
    assert_eq!(bob.2, 0);
}

#[test]
fn test_parse_bridge_stats_numeric_values() {
    let json = r#"{"stat":[
            {"name":"user>>>test@vpn>>>traffic>>>uplink","value":999}
        ]}"#;
    let result = parse_bridge_stats(json);
    assert_eq!(result.len(), 1);
    assert_eq!(result[0].1, 999);
}

#[test]
fn test_parse_bridge_stats_pretty_printed() {
    let json = r#"{
  "stat": [
    {
      "name": "user>>>alice@vpn>>>traffic>>>uplink",
      "value": "2048"
    },
    {
      "name": "user>>>alice@vpn>>>traffic>>>downlink",
      "value": "8192"
    }
  ]
}"#;
    let result = parse_bridge_stats(json);
    assert_eq!(result.len(), 1);
    let alice = &result[0];
    assert_eq!(alice.0, "alice@vpn");
    assert_eq!(alice.1, 2048);
    assert_eq!(alice.2, 8192);
}

#[test]
fn test_parse_bridge_stats_malformed_json() {
    let result = parse_bridge_stats("not json at all");
    assert!(result.is_empty());
}

#[test]
fn test_parse_bridge_stats_missing_value() {
    let json = r#"{"stat":[
            {"name":"user>>>test@vpn>>>traffic>>>uplink"}
        ]}"#;
    let result = parse_bridge_stats(json);
    assert_eq!(result.len(), 1);
    assert_eq!(result[0].1, 0);
}
