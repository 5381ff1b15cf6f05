use amnezia_xray_admin::backend::fetch::{added_user, Fetch};
use amnezia_xray_admin::backend::{
    bridge_params_from, bridge_url_params, build_amnezia_url, build_bridge_params_cmd,
    build_bridge_vless_url, build_direct_vless_url, build_latest_version_cmd,
    build_public_key_cmd, build_uptime_cmd, build_vless_params, build_vless_url,
    connection_test_result, container_uptime, enriched, latest_xray_version, read_bridge_params,
    read_public_key, release_version_from, resolve_connection_info, ssh_addr, BridgeParams,
    SshHost,
};
use amnezia_xray_admin::config::{is_valid_container_name, Config};
use amnezia_xray_admin::deploy::{fallback_ip, Deploy, DeployReply, DeployTask, HostOutput};
use amnezia_xray_admin::error::AppError;
use amnezia_xray_admin::json::Json;
use amnezia_xray_admin::ui::states::DeployStatus;
use amnezia_xray_admin::work::{Got, Need};
use amnezia_xray_admin::xray::client::{CommandOutput, ServerInfo};
use amnezia_xray_admin::xray::types::{ServerConfig, TrafficStats, XrayUser};
use amnezia_xray_admin::xray::urls::generate_amnezia_url;

fn output(success: bool, stdout: &str, stderr: &str) -> CommandOutput {
    CommandOutput { stdout: stdout.to_string(), stderr: stderr.to_string(), success }
}

const BRIDGE: &str =
    r#"{"host":"b","port":65537,"publicKey":"pk","shortId":"ab","sni":"s","path":"/p"}"#;

fn bridge() -> BridgeParams {
    read_bridge_params(&output(true, &format!(" {}\n", BRIDGE), "")).unwrap()
}

#[test]
fn the_parameters_of_the_bridge_are_read() {
    assert_eq!(build_bridge_params_cmd(), "cat /etc/xray/bridge-params.json");
    let b = bridge();
    assert_eq!((b.host.as_str(), b.port, b.path.as_str()), ("b", 1, "/p"));
    assert_eq!(
        build_bridge_vless_url(bridge(), "u1"),
        "vless://u1@b:1?encryption=none&type=xhttp&path=%2Fp&security=reality&sni=s&fp=chrome&pbk=pk&sid=ab#LT-Xray"
    );
    assert_eq!(bridge_url_params(bridge(), "u1").uuid, "u1");
}

#[test]
fn every_parameter_of_the_bridge_is_needed() {
    for key in ["host", "port", "publicKey", "shortId", "sni", "path"] {
        let j = Json::parse(&BRIDGE.replace(&format!("\"{}\"", key), "\"other\"")).unwrap();
        assert_eq!(
            bridge_params_from(&j).unwrap_err().message(),
            format!("bridge-params.json missing '{}'", key)
        );
    }
    assert!(read_bridge_params(&output(true, "?", ""))
        .unwrap_err()
        .message()
        .starts_with("failed to parse bridge params: "));
    assert_eq!(
        read_bridge_params(&output(false, "", " none\n")).unwrap_err().message(),
        "failed to read bridge params from /etc/xray/bridge-params.json: none"
    );
}

#[test]
fn the_public_key_is_read() {
    assert_eq!(build_public_key_cmd(), "cat /opt/amnezia/xray/xray_public.key");
    assert_eq!(read_public_key(&output(true, " key\n", "")).unwrap(), "key");
    assert_eq!(
        read_public_key(&output(false, "", " gone\n")).unwrap_err().message(),
        "failed to read public key: gone"
    );
}

#[test]
fn the_uptime_is_that_of_the_container() {
    assert_eq!(
        build_uptime_cmd("amnezia-xray"),
        "docker ps --filter 'name=^/amnezia-xray$' --format '{{.Status}}'"
    );
    assert_eq!(container_uptime(&Some(output(true, " Up 3 days\n", ""))), "Up 3 days");
    assert_eq!(container_uptime(&Some(output(false, "Up 3 days", "no daemon"))), "");
    assert_eq!(container_uptime(&None), "");
}

#[test]
fn the_latest_version_is_a_number() {
    assert_eq!(
        build_latest_version_cmd(),
        "curl -sfL --max-time 3 -H 'Accept: application/vnd.github+json' https://api.github.com/repos/XTLS/Xray-core/releases/latest"
    );
    let tag = |s: &str| output(true, &format!(r#"{{"tag_name":"{}"}}"#, s), "");
    assert_eq!(latest_xray_version(&Some(tag("v1.2"))).as_deref(), Some("1.2"));
    assert_eq!(latest_xray_version(&Some(tag("v..."))), None);
    assert_eq!(latest_xray_version(&Some(tag("v"))), None);
    assert_eq!(latest_xray_version(&Some(output(false, r#"{"tag_name":"v1"}"#, ""))), None);
    assert_eq!(latest_xray_version(&None), None);
    assert_eq!(release_version_from(&None), None);
}

#[test]
fn a_connection_is_tested_by_the_version() {
    assert_eq!(connection_test_result(&output(true, " Xray 1\n", "")), Ok("Xray 1".to_string()));
    assert_eq!(
        connection_test_result(&output(false, "", " no\n")),
        Err("xray version failed: no".to_string())
    );
}

const SERVER: &str = r#"{"inbounds":[{"protocol":"vless","port":443,"settings":{"clients":[]},"streamSettings":{"realitySettings":{"serverNames":["s"],"shortIds":["ab"]},"xhttpSettings":{"path":"/p"}}}]}"#;

fn server(s: &str) -> ServerConfig {
    ServerConfig::parse(s).unwrap()
}

fn key() -> Result<String, AppError> {
    Ok("pk".to_string())
}

#[test]
fn the_url_of_a_user_comes_from_the_server() {
    let c = server(SERVER);
    let p = build_vless_params(&c, key(), "h", "u1").unwrap();
    assert_eq!((p.host.as_str(), p.port, p.sni.as_str()), ("h", 443, "s"));
    assert_eq!((p.short_id.as_str(), p.public_key.as_str()), ("ab", "pk"));
    let url = build_vless_url(&c, key(), "h", "u1").unwrap();
    assert!(url.starts_with("vless://u1@h:443?"));
    assert_eq!(build_direct_vless_url(&c, key(), "h", "u1").unwrap(), url);
    assert_eq!(build_amnezia_url(&c, key(), "h", "u1").unwrap(), generate_amnezia_url(&p));
}

#[test]
fn a_url_needs_the_key_and_the_settings() {
    let bare = r#"{"inbounds":[{"protocol":"vless","port":443,"settings":{"clients":[]}}]}"#;
    assert!(build_vless_url(&server(bare), key(), "h", "u").is_err());
    let lost = Err(AppError::Xray("no key".to_string()));
    assert_eq!(
        build_vless_url(&server(SERVER), lost, "h", "u").unwrap_err().message(),
        "no key"
    );
}

fn user(name: &str) -> XrayUser {
    XrayUser {
        uuid: name.to_string(),
        name: name.to_string(),
        email: format!("{}@vpn", name),
        flow: String::new(),
        stats: TrafficStats { uplink: 1, downlink: 1 },
        online_count: 1,
    }
}

#[test]
fn what_is_not_known_of_a_user_stays() {
    let u = enriched(user("a"), None, Some(5));
    assert_eq!((u.stats.uplink, u.online_count), (1, 5));
    let u = enriched(user("a"), Some(TrafficStats { uplink: 7, downlink: 8 }), None);
    assert_eq!((u.stats.uplink, u.stats.downlink, u.online_count), (7, 8, 1));
}

#[test]
fn a_fetch_gathers_the_dashboard() {
    let f = Fetch::start(false, true);
    assert!(matches!(f.need(), Some(Need::EnsureApi)));
    let f = f.next(Got::Yes(false));
    assert!(matches!(f.need(), Some(Need::Users)));
    let f = f.next(Got::Users(vec![user("a"), user("b")]));
    assert!(matches!(f.need(), Some(Need::ServerInfo)));
    let info = ServerInfo { version: "1.0".to_string(), uplink: 3, downlink: 4 };
    let f = f.next(Got::Info(info));
    assert!(matches!(f.need(), Some(Need::Traffic(e)) if e == ["a@vpn", "b@vpn"]));
    let f = f.next(Got::Traffic(vec![
        (Some(TrafficStats { uplink: 9, downlink: 9 }), None),
        (None, Some(2)),
    ]));
    let f = f.next(Got::Text("Up".to_string()));
    assert!(matches!(f.need(), Some(Need::Latest)));
    let f = f.next(Got::Maybe(Some("1.1".to_string())));
    assert!(f.need().is_none());
    match f {
        Fetch::Done { result: Ok(d) } => {
            assert_eq!(d.users[0].stats.uplink, 9);
            assert_eq!(d.users[1].online_count, 2);
            assert_eq!(d.server_info.version, "1.0");
            assert_eq!(d.container_uptime, "Up");
            assert_eq!(d.latest_version.as_deref(), Some("1.1"));
            assert!(d.version_was_fetched);
        }
        other => panic!("{:?}", other),
    }
}

#[test]
fn a_fetch_skips_what_is_known_and_stops_where_it_fails() {
    let f = Fetch::start(true, false);
    assert!(matches!(f.need(), Some(Need::Users)));
    let f = f.next(Got::Users(Vec::new()));
    let f = f.next(Got::Info(ServerInfo::default())).next(Got::Traffic(Vec::new()));
    match f.next(Got::Text(String::new())) {
        Fetch::Done { result: Ok(d) } => {
            assert_eq!(d.latest_version, None);
            assert!(!d.version_was_fetched);
        }
        other => panic!("{:?}", other),
    }
    let failed = Fetch::start(false, true).next(Got::Failed(AppError::Xray("x".to_string())));
    assert!(matches!(failed, Fetch::Done { result: Err(m) } if m == "x"));
}

#[test]
fn a_user_without_a_url_was_still_added() {
    let a = added_user("n", "u".to_string(), Err(AppError::Xray("x".to_string())));
    assert_eq!((a.name.as_str(), a.uuid.as_str(), a.vless_url.as_str()), ("n", "u", ""));
    assert_eq!(added_user("n", "u".to_string(), Ok("U".to_string())).vless_url, "U");
}

#[test]
fn an_alias_is_resolved() {
    let config = Config {
        ssh_host: Some("alias".to_string()),
        host: Some("h".to_string()),
        ..Config::default()
    };
    let known = SshHost {
        hostname: Some("real".to_string()),
        port: Some(2200),
        user: Some("me".to_string()),
        identity_file: Some("~/.ssh/id".to_string()),
    };
    let (host, port, user, key) =
        resolve_connection_info(&config, &Some(known), "/home/me").unwrap();
    assert_eq!((host.as_str(), port, user.as_str()), ("real", 2200, "me"));
    assert_eq!(key.as_deref(), Some("/home/me/.ssh/id"));
    assert_eq!(ssh_addr("h", 22), "h:22");
    assert_eq!(ssh_addr("::1", 22), "[::1]:22");
}

fn on_host(d: &Deploy) -> String {
    match d.task() {
        Some(DeployTask::OnHost(c)) => c,
        other => panic!("{:?}", other),
    }
}

fn ran(success: bool, stdout: &str, is_ip: bool) -> DeployReply {
    DeployReply::Output(Ok(HostOutput {
        success,
        stdout: stdout.to_string(),
        combined: format!("{}!", stdout),
        is_ip,
    }))
}

fn deployment() -> Deploy {
    let config = Config { telegram_admin_chat_id: Some(-5), ..Config::default() };
    Deploy::start(&config, "1:t", "fallback")
}

fn failure(d: Deploy) -> String {
    match d {
        Deploy::Failed { message } => message,
        other => panic!("{:?}", other),
    }
}

#[test]
fn a_deployment_pulls_starts_and_verifies() {
    assert!(matches!(Deploy::announcement(), DeployStatus::Connecting));
    let d = deployment();
    assert!(d.progress().is_none());
    let d = d.next(DeployReply::Connected(Ok(())));
    assert!(matches!(d.progress(), Some(DeployStatus::BuildingImage)));
    let image = Config::default().bot_image;
    assert_eq!(on_host(&d), format!("docker pull {} 2>&1", image));
    let d = d.next(ran(true, "", false));
    assert_eq!(
        on_host(&d),
        "docker stop axadmin 2>/dev/null; docker rm axadmin 2>/dev/null"
    );
    let d = d.next(DeployReply::Output(Err("no such container".to_string())));
    assert_eq!(on_host(&d), "curl -sf --max-time 5 https://ifconfig.me");
    let d = d.next(ran(true, "busy", false));
    assert_eq!(on_host(&d), "curl -sf --max-time 5 https://icanhazip.com");
    let d = d.next(ran(true, " 1.2.3.4\n", true));
    assert_eq!(
        on_host(&d),
        format!(
            "docker run -d --name axadmin --restart unless-stopped -v /var/run/docker.sock:/var/run/docker.sock -e TELEGRAM_TOKEN='1:t' -e ADMIN_ID='-5' -e XRAY_CONTAINER='amnezia-xray' {} --telegram-bot --local --container 'amnezia-xray' --admin-id -5 --host '1.2.3.4' 2>&1",
            image
        )
    );
    let d = d.next(ran(true, "", false));
    assert!(matches!(d.progress(), Some(DeployStatus::Verifying)));
    assert_eq!(on_host(&d), "docker inspect axadmin --format '{{.State.Status}}' 2>&1");
    match d.next(ran(true, "running\n", false)) {
        Deploy::Done { message } => {
            assert_eq!(message, "Bot deployed and running! Send /start to your bot.")
        }
        other => panic!("{:?}", other),
    }
}

fn started() -> Deploy {
    deployment()
        .next(DeployReply::Connected(Ok(())))
        .next(ran(true, "", false))
        .next(ran(true, "", false))
        .next(ran(false, "", false))
        .next(ran(false, "", false))
        .next(ran(false, "", false))
}

#[test]
fn an_unknown_address_falls_back() {
    assert!(on_host(&started()).ends_with(" --host 'fallback' 2>&1"));
    let mut config = Config::default();
    assert_eq!(fallback_ip(&config, &None), "UNKNOWN_IP");
    config.ssh_host = Some("alias".to_string());
    assert_eq!(fallback_ip(&config, &None), "alias");
    config.host = Some("h".to_string());
    assert_eq!(fallback_ip(&config, &None), "h");
    assert_eq!(fallback_ip(&config, &Some("r".to_string())), "r");
}

#[test]
fn a_deployment_stops_where_it_fails() {
    let refused = DeployReply::Connected(Err("refused".to_string()));
    assert_eq!(failure(deployment().next(refused)), "refused");
    let pulling = || deployment().next(DeployReply::Connected(Ok(())));
    assert_eq!(failure(pulling().next(ran(false, "x", false))), "Docker pull failed: x!");
    assert_eq!(failure(started().next(ran(false, "x", false))), "Docker start failed: x!");
    let lost = DeployReply::Output(Err("lost".to_string()));
    assert_eq!(failure(started().next(lost)), "Docker start failed: lost");
    let verifying = || started().next(ran(true, "", false));
    assert_eq!(failure(verifying().next(ran(false, "x", false))), "Verification failed: x!");
    assert_eq!(
        failure(verifying().next(ran(true, " exited\n", false))),
        "Bot container not running. Status: exited"
    );
}

#[test]
fn containers_have_plain_names() {
    assert!(is_valid_container_name("amnezia-xray_1.2"));
    assert!(!is_valid_container_name(""));
    assert!(!is_valid_container_name("a;b"));
    let bad = Config { container: "a b".to_string(), ..Config::default() };
    assert!(bad.checked().is_err());
    assert!(Config::default().checked().is_ok());
}
