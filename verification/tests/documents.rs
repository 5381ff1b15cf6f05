use amnezia_xray_admin::bridge_client::{
    bridge_online_from, bridge_stats_from, parse_sysinfo, BridgeClient, BridgeSysinfo,
};
use amnezia_xray_admin::bridge_config::{add_client, remove_client, user_emails, Edit};
use amnezia_xray_admin::json::Json;
use amnezia_xray_admin::xray::table::ClientsTable;
use amnezia_xray_admin::xray::types::{ServerConfig, ServerJsonClient, VlessUrlParams};
use amnezia_xray_admin::xray::urls::{
    build_adu_json, build_amnezia_config, build_client_config, framed, generate_amnezia_url,
    generate_vless_url, urlencode_fragment,
};
use base64::Engine;
use flate2::read::ZlibDecoder;
use std::io::Read;

fn json(s: &str) -> Json {
    Json::parse(s).unwrap()
}

fn params() -> VlessUrlParams {
    VlessUrlParams {
        uuid: "u1".to_string(),
        host: "2001:db8::1".to_string(),
        port: 443,
        sni: "example.com".to_string(),
        public_key: "pk".to_string(),
        short_id: "ab".to_string(),
        path: "/a/b".to_string(),
    }
}

#[test]
fn json_is_read_and_written() {
    let j = json(r#" {"b": [1, -2, true, null], "a": "é\n"} "#);
    assert_eq!(j.to_text(), r#"{"a":"é\n","b":[1,-2,true,null]}"#);
    assert_eq!(j.to_pretty(), "{\n  \"a\": \"é\\n\",\n  \"b\": [\n    1,\n    -2,\n    true,\n    null\n  ]\n}");
    assert_eq!(json("1.5").to_text(), "1.5");
    assert_eq!(json("18446744073709551615").as_u64(), Some(u64::MAX));
    assert_eq!(json("-1").as_i64(), Some(-1));
    assert_eq!(json("-1").as_u64(), None);
    assert!(Json::parse("{").is_err());
    assert!(Json::parse("").is_err());
}

#[test]
fn written_json_reads_back() {
    for s in ["null", "[]", "{}", r#"{"a":{"b":[{},[],"x",0,-9,false]}}"#] {
        let j = json(s);
        assert_eq!(json(&j.to_text()).to_text(), s);
        assert_eq!(json(&j.to_pretty()).to_text(), s);
    }
}

#[test]
fn members_are_put_and_found() {
    let mut j = Json::object().with("a", Json::text("x"));
    assert_eq!(j.str_at("a"), Some("x"));
    assert!(j.get("b").is_none());
    j.put("a", Json::list(Json::text("y")));
    assert_eq!(j.array_at("a").unwrap().len(), 1);
    assert_eq!(j.names(), Some(vec!["a".to_string()]));
    assert_eq!(Json::text("y").names(), None);
    if let Some(Json::Array(v)) = j.get_mut("a") {
        v.push(Json::Null);
    }
    assert_eq!(j.to_text(), r#"{"a":["y",null]}"#);
}

#[test]
fn the_url_holds_every_parameter() {
    assert_eq!(
        generate_vless_url(&params()),
        "vless://u1@[2001:db8::1]:443?encryption=none&type=xhttp&path=%2Fa%2Fb&security=reality&sni=example.com&fp=chrome&pbk=pk&sid=ab#LT-Xray"
    );
}

#[test]
fn fragments_are_encoded_by_byte() {
    assert_eq!(urlencode_fragment("a b~é#%\""), "a%20b~%C3%A9%23%25%22");
}

#[test]
fn what_a_fragment_may_hold_is_kept() {
    let allowed = "Az09-._~!$&'()*+,;=:@/?";
    assert_eq!(urlencode_fragment(allowed), allowed);
}

#[test]
fn the_client_configuration_names_the_server() {
    assert_eq!(
        build_client_config(&params()).to_text(),
        r#"{"inbounds":[{"listen":"127.0.0.1","port":10808,"protocol":"socks","settings":{"udp":true}}],"log":{"loglevel":"error"},"outbounds":[{"protocol":"vless","settings":{"vnext":[{"address":"2001:db8::1","port":443,"users":[{"encryption":"none","id":"u1"}]}]},"streamSettings":{"network":"xhttp","realitySettings":{"fingerprint":"chrome","publicKey":"pk","serverName":"example.com","shortId":"ab","spiderX":""},"security":"reality","xhttpSettings":{"path":"/a/b"}}}]}"#
    );
    assert_eq!(
        build_amnezia_config(&params(), "LC").to_text(),
        r#"{"containers":[{"container":"amnezia-xray","xray":{"last_config":"LC","port":"443","transport_proto":"xhttp"}}],"defaultContainer":"amnezia-xray","description":"LT-Xray","dns1":"1.1.1.1","dns2":"1.0.0.1","hostName":"2001:db8::1"}"#
    );
}

#[test]
fn the_connection_string_unpacks_to_the_configuration() {
    let url = generate_amnezia_url(&params());
    let coded = url.strip_prefix("vpn://").unwrap();
    let payload = base64::engine::general_purpose::URL_SAFE_NO_PAD.decode(coded).unwrap();
    let mut text = String::new();
    ZlibDecoder::new(&payload[4..]).read_to_string(&mut text).unwrap();
    let len = u32::from_be_bytes([payload[0], payload[1], payload[2], payload[3]]);
    assert_eq!(len as usize, text.len());
    let mut last = build_client_config(&params()).to_pretty();
    last.push('\n');
    assert_eq!(text, build_amnezia_config(&params(), &last).to_text());
}

#[test]
fn the_length_stands_before_what_is_compressed() {
    assert_eq!(framed(0x01020304, &vec![9, 8]), vec![1, 2, 3, 4, 9, 8]);
    assert_eq!(framed(5, &Vec::new()), vec![0, 0, 0, 5]);
}

#[test]
fn a_new_user_is_announced_with_its_email() {
    assert_eq!(
        build_adu_json("u1", "a@vpn", "vless-in"),
        r#"{"inboundTag":"vless-in","user":{"account":{"encryption":"none","id":"u1"},"email":"a@vpn","level":0}}"#
    );
}

const SERVER: &str = r#"{"inbounds":[{"protocol":"http"},{"protocol":"vless","port":443,"settings":{"clients":[]}}],"keep":1}"#;

fn client(id: &str) -> ServerJsonClient {
    ServerJsonClient {
        id: id.to_string(),
        flow: String::new(),
        email: Some(format!("{}@vpn", id)),
        level: Some(0),
    }
}

#[test]
fn what_is_added_can_be_removed_again() {
    let mut c = ServerConfig::parse(SERVER).unwrap();
    let before = c.to_json();
    c.add_client(&client("u1")).unwrap();
    assert!(c.has_client_email("u1@vpn"));
    assert_eq!(c.clients()[0].id, "u1");
    assert!(c.remove_client("u1").unwrap());
    assert_eq!(c.to_json(), before);
    assert!(!c.remove_client("u1").unwrap());
}

#[test]
fn the_document_reads_back_as_it_was_written() {
    let mut c = ServerConfig::parse(SERVER).unwrap();
    c.add_client(&client("u1")).unwrap();
    let again = ServerConfig::parse(&c.to_json()).unwrap();
    assert_eq!(again.to_json(), c.to_json());
    assert_eq!(again.clients(), c.clients());
}

#[test]
fn the_table_reads_back_as_it_was_written() {
    let mut t = ClientsTable { entries: Vec::new() };
    t.add("u1".to_string(), "al\"ice".to_string());
    t.add("u2".to_string(), "bob".to_string());
    let again = ClientsTable::parse(&t.to_json()).unwrap();
    assert_eq!(again.entries, t.entries);
    assert_eq!(again.uuid_for_name("bob"), Some("u2"));
}

#[test]
fn documents_without_clients_are_refused() {
    let mut c = ServerConfig::parse(r#"{"inbounds":[{"protocol":"vless"}]}"#).unwrap();
    assert_eq!(c.add_client(&client("u")).unwrap_err().message(), "no clients array found");
    assert_eq!(
        c.update_client_email("u", "e").unwrap_err().message(),
        "no clients array found"
    );
    assert_eq!(c.remove_client("u").unwrap_err().message(), "no clients array found");
    assert!(ServerConfig::parse("nope").is_err());
    assert!(ClientsTable::parse("{}").is_err());
}

#[test]
fn routes_are_added_listed_and_removed() {
    let mut c = ServerConfig::parse(SERVER).unwrap();
    assert!(c.list_user_routes().is_empty());
    c.add_user_route("alice", "direct");
    c.add_user_route("bob@corp", "proxy");
    assert_eq!(
        c.list_user_routes(),
        vec![
            ("alice@vpn".to_string(), "direct".to_string()),
            ("bob@corp".to_string(), "proxy".to_string())
        ]
    );
    assert!(c.remove_user_route("alice@vpn"));
    assert!(!c.remove_user_route("alice"));
    assert_eq!(c.list_user_routes(), vec![("bob@corp".to_string(), "proxy".to_string())]);
}

const BRIDGE: &str = r#"{"inbounds":[{"settings":{"clients":[{"id":"u1","email":"a@vpn"}]}}]}"#;

#[test]
fn the_bridge_gets_and_loses_clients() {
    let added = match add_client(json(BRIDGE), "u2", "b@vpn") {
        Edit::Write(j) => j,
        other => panic!("{:?}", other),
    };
    assert_eq!(user_emails(&added), vec!["a@vpn", "b@vpn"]);
    let removed = match remove_client(added, "b@vpn") {
        Edit::Write(j) => j,
        other => panic!("{:?}", other),
    };
    assert_eq!(removed.to_text(), json(BRIDGE).to_text());
    assert!(matches!(add_client(json(BRIDGE), "u1", "x"), Edit::Unchanged));
    assert!(matches!(remove_client(json(BRIDGE), "x"), Edit::Unchanged));
    assert!(
        matches!(add_client(json("{}"), "u", "e"), Edit::Fault(m) if m == "no clients array in config")
    );
}

#[test]
fn requests_to_the_bridge_are_addressed() {
    let b = BridgeClient::new("http://h:9090/key//".to_string());
    assert_eq!(b.url("/stats"), "http://h:9090/key/stats");
    assert_eq!(BridgeClient::add_user_path("u", "a@vpn"), "/add-user/u/a@vpn");
    assert_eq!(BridgeClient::del_user_path("a@vpn"), "/del-user/a@vpn");
}

#[test]
fn replies_of_the_bridge_are_judged() {
    assert!(BridgeClient::health("{\"ok\":true}"));
    assert!(!BridgeClient::health("{}"));
    assert_eq!(BridgeClient::accepted("{\"ok\":true}".to_string()), Ok(()));
    assert_eq!(BridgeClient::accepted("no".to_string()), Err("no".to_string()));
}

#[test]
fn host_metrics_are_read() {
    let s = parse_sysinfo(
        r#"{"load_1min":"0.5","mem_used_mb":1,"mem_total_mb":3,"disk_used_gb":2,"disk_total_gb":0,"uptime_secs":90061}"#,
    )
    .unwrap();
    assert_eq!(s.load_1min, "0.5");
    assert_eq!(s.mem_percent(), 33);
    assert_eq!(s.disk_percent(), 0);
    assert_eq!(s.uptime_human(), "1d 1h");
    let up = |n: u64| BridgeSysinfo { uptime_secs: n, ..BridgeSysinfo::default() }.uptime_human();
    assert_eq!(up(3660), "1h 1m");
    assert_eq!(up(59), "0m");
    assert_eq!(parse_sysinfo("{}").unwrap().uptime_secs, 0);
    assert!(parse_sysinfo("x").err().unwrap().starts_with("parse sysinfo: "));
}

#[test]
fn answers_of_the_bridge_that_cannot_be_read_are_empty() {
    assert!(bridge_stats_from(&None).is_empty());
    assert!(bridge_online_from(&None).is_empty());
    let stats = json(
        r#"{"stat":[{"name":"user>>>a@vpn>>>traffic>>>uplink","value":5},{"name":"user>>>a@vpn>>>traffic>>>downlink","value":7}]}"#,
    );
    assert_eq!(bridge_stats_from(&Some(stats)), vec![("a@vpn".to_string(), 5, 7)]);
}
