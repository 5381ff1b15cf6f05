use amnezia_xray_admin::http_agent::{
    body_len, header, logged_action, parse_request_line, parse_statsonline, persist, route,
    status_text, statsonline_from, strip_prefixes, to_lower, Change, Exchange, Header, Outcome,
    Ran, Response, Route, Task, MAX_BODY,
};
use amnezia_xray_admin::json::Json;

const SECRET: &str = "k3y";

const CONFIG: &str = r#"{"inbounds":[{"settings":{"clients":[{"id":"u1","email":"a@vpn"},{"id":"u2"},{"id":"u3","email":"b@vpn"}]}}]}"#;

fn ran(success: bool, stdout: &str, stderr: &str) -> Outcome {
    Outcome::Docker(Ok(Ran {
        success,
        stdout: stdout.to_string(),
        stdout_is_utf8: true,
        stderr: stderr.to_string(),
    }))
}

fn docker_args(e: &Exchange) -> Vec<String> {
    match e.task() {
        Some(Task::Docker(args)) => args,
        other => panic!("expected docker, got {:?}", other),
    }
}

fn finished(e: Exchange) -> (Response, Option<String>) {
    match e {
        Exchange::Finished { response, warning } => (response, warning),
        other => panic!("not finished: {:?}", other),
    }
}

fn responds(r: Route) -> Response {
    match r {
        Route::Respond(x) => x,
        other => panic!("expected a response, got {:?}", other),
    }
}

#[test]
fn request_line_takes_the_first_two_words() {
    assert_eq!(
        parse_request_line("GET /x HTTP/1.1\r\n"),
        Some(("GET".to_string(), "/x".to_string()))
    );
    assert_eq!(parse_request_line("GET"), None);
    assert_eq!(parse_request_line(" \r\n"), None);
}

#[test]
fn headers_give_the_length_of_the_body() {
    assert_eq!(header(0, "Content-Length: 12\r\n"), Header::More(12));
    assert_eq!(header(7, "CONTENT-LENGTH:  3 "), Header::More(3));
    assert_eq!(header(7, "Content-Length: many"), Header::More(0));
    assert_eq!(header(7, "Content-Length: -1"), Header::More(0));
    assert_eq!(header(7, "Content-Length: +5"), Header::More(5));
    assert_eq!(header(7, "Host: example"), Header::More(7));
    assert_eq!(header(7, "\r\n"), Header::End);
}

#[test]
fn only_ascii_letters_are_lowered() {
    assert_eq!(to_lower("AbZ[É"), "abz[É");
}

#[test]
fn only_the_body_of_a_post_is_read() {
    assert_eq!(body_len("POST", 10), 10);
    assert_eq!(body_len("POST", MAX_BODY + 1), 1024 * 1024);
    assert_eq!(body_len("GET", 10), 0);
}

#[test]
fn statuses_have_their_phrases() {
    assert_eq!(status_text(200), "OK");
    assert_eq!(status_text(400), "Bad Request");
    assert_eq!(status_text(404), "Not Found");
    assert_eq!(status_text(500), "Internal Server Error");
    assert_eq!(status_text(418), "Unknown");
}

#[test]
fn responses_state_their_length_in_bytes() {
    assert_eq!(
        Response::plain(404, "Not Found").to_text(),
        "HTTP/1.1 404 Not Found\r\nContent-Length: 9\r\nConnection: close\r\n\r\nNot Found"
    );
    assert_eq!(
        Response::json(200, "{\"é\":1}").to_text(),
        "HTTP/1.1 200 OK\r\nContent-Type: application/json\r\nContent-Length: 8\r\nConnection: close\r\n\r\n{\"é\":1}"
    );
}

#[test]
fn without_the_secret_nothing_is_found() {
    for path in ["/health", "/other/health", "k3y/health", "/K3Y/health"] {
        let r = responds(route(SECRET, "GET", path, ""));
        assert_eq!((r.status, r.json, r.body.as_str()), (404, false, "Not Found"));
    }
    assert_eq!(responds(route(SECRET, "GET", "/k3y/health", "")).body, "{\"ok\":true}");
}

#[test]
fn only_a_post_changes_anything() {
    for action in ["/restore", "/add-user/u/e", "/del-user/e", "/nothing"] {
        let r = responds(route(SECRET, "GET", &format!("/k3y{}", action), "{}"));
        assert_eq!(r.status, 404);
    }
    for action in ["/backup", "/stats", "/online", "/health"] {
        let r = responds(route(SECRET, "POST", &format!("/k3y{}", action), "{}"));
        assert_eq!(r.status, 404);
    }
}

#[test]
fn reads_are_routed() {
    assert!(matches!(route(SECRET, "GET", "/k3y/backup", ""), Route::Backup));
    assert!(matches!(route(SECRET, "GET", "/k3y/stats", ""), Route::Stats));
    assert!(matches!(route(SECRET, "GET", "/k3y/online", ""), Route::Online));
}

#[test]
fn restore_takes_valid_json_only() {
    assert_eq!(
        responds(route(SECRET, "POST", "/k3y/restore", "")).body,
        "{\"error\":\"empty body\"}"
    );
    assert_eq!(
        responds(route(SECRET, "POST", "/k3y/restore", "{")).body,
        "{\"error\":\"invalid JSON\"}"
    );
    match route(SECRET, "POST", "/k3y/restore", "{\"a\":1}") {
        Route::Restore(body) => assert_eq!(body, "{\"a\":1}"),
        other => panic!("{:?}", other),
    }
}

#[test]
fn user_routes_take_their_arguments_from_the_path() {
    match route(SECRET, "POST", "/k3y/add-user/u9/c@vpn/x", "") {
        Route::AddUser { uuid, email } => {
            assert_eq!(uuid, "u9");
            assert_eq!(email, "c@vpn/x");
        }
        other => panic!("{:?}", other),
    }
    match route(SECRET, "POST", "/k3y/del-user//del-user/c@vpn", "") {
        Route::DelUser { email } => assert_eq!(email, "c@vpn"),
        other => panic!("{:?}", other),
    }
    let r = responds(route(SECRET, "POST", "/k3y/add-user/u9", ""));
    assert_eq!(r.status, 400);
    assert_eq!(r.body, "{\"error\":\"usage: /add-user/<uuid>/<email>\"}");
}

#[test]
fn repeated_prefixes_are_dropped() {
    assert_eq!(strip_prefixes("aaab", "a"), "b");
    assert_eq!(strip_prefixes("b", "a"), "b");
    assert_eq!(strip_prefixes("b", ""), "b");
}

#[test]
fn the_log_does_not_show_the_secret() {
    assert_eq!(logged_action(SECRET, "/k3y/stats"), "/stats");
    assert_eq!(logged_action(SECRET, "/guess/stats"), "<unauthorized>");
}

#[test]
fn backup_sends_the_configuration() {
    let e = Exchange::begin(Route::Backup, "bridge");
    assert!(matches!(e.task(), Some(Task::ReadConfig)));
    let (r, w) = finished(e.next(Outcome::Read(Ok("{}".to_string()))));
    assert_eq!((r.status, r.json, r.body.as_str(), w), (200, true, "{}", None));

    let e = Exchange::begin(Route::Backup, "bridge");
    let (r, _) = finished(e.next(Outcome::Read(Err("denied".to_string()))));
    assert_eq!((r.status, r.body.as_str()), (500, "{\"error\":\"read config: denied\"}"));
}

#[test]
fn restore_writes_moves_and_restarts() {
    let e = Exchange::begin(Route::Restore("{}".to_string()), "bridge");
    assert!(matches!(e.task(), Some(Task::WriteTemp(t)) if t == "{}"));
    let e = e.next(Outcome::Written(Ok(())));
    assert!(matches!(e.task(), Some(Task::MoveTemp)));
    let e = e.next(Outcome::Written(Ok(())));
    assert_eq!(docker_args(&e), vec!["restart", "bridge"]);
    let (r, _) = finished(e.next(ran(true, "", "")));
    assert_eq!(r.body, "{\"ok\":true}");
}

#[test]
fn restore_stops_where_it_fails() {
    let begun = || Exchange::begin(Route::Restore("{}".to_string()), "bridge");
    let bad = || Outcome::Written(Err("full".to_string()));
    let good = || Outcome::Written(Ok(()));

    let (r, _) = finished(begun().next(bad()));
    assert_eq!(r.body, "{\"error\":\"write temp: full\"}");
    let (r, _) = finished(begun().next(good()).next(bad()));
    assert_eq!(r.body, "{\"error\":\"rename: full\"}");
    let (r, _) = finished(begun().next(good()).next(good()).next(ran(false, "", " no \n")));
    assert_eq!(r.body, "{\"error\":\"docker restart failed: no\"}");
    let down = Outcome::Docker(Err("down".to_string()));
    let (r, _) = finished(begun().next(good()).next(good()).next(down));
    assert_eq!(r.body, "{\"error\":\"docker restart: down\"}");
}

#[test]
fn stats_are_passed_on() {
    let e = Exchange::begin(Route::Stats, "bridge");
    assert_eq!(
        docker_args(&e),
        vec![
            "exec", "bridge", "xray", "api", "statsquery", "-s", "127.0.0.1:8080", "-pattern",
            "user>>>"
        ]
    );
    let (r, _) = finished(e.next(ran(false, "out", "err")));
    assert_eq!((r.status, r.body.as_str()), (200, "out"));
}

#[test]
fn every_user_is_asked_whether_online() {
    let e = Exchange::begin(Route::Online, "bridge");
    let e = e.next(Outcome::Read(Ok(CONFIG.to_string())));
    assert_eq!(
        docker_args(&e),
        vec![
            "exec", "bridge", "xray", "api", "statsonline", "-s", "127.0.0.1:8080", "-email",
            "a@vpn"
        ]
    );
    let e = e.next(ran(true, r#"{"stat":{"value":2}}"#, ""));
    assert_eq!(docker_args(&e).last().unwrap(), "b@vpn");
    let (r, _) = finished(e.next(Outcome::Docker(Err("down".to_string()))));
    assert_eq!(
        r.body,
        r#"{"users":[{"email":"a@vpn","online":2},{"email":"b@vpn","online":0}]}"#
    );
}

#[test]
fn nobody_is_online_without_a_configuration() {
    for read in [Ok("not json".to_string()), Ok("{}".to_string()), Err("gone".to_string())] {
        let e = Exchange::begin(Route::Online, "bridge");
        let (r, _) = finished(e.next(Outcome::Read(read)));
        assert_eq!(r.body, r#"{"users":[]}"#);
    }
}

#[test]
fn output_that_is_not_utf8_counts_for_nothing() {
    let e = Exchange::begin(Route::Online, "bridge");
    let one = r#"{"inbounds":[{"settings":{"clients":[{"id":"u","email":"a@vpn"}]}}]}"#;
    let e = e.next(Outcome::Read(Ok(one.to_string())));
    let (r, _) = finished(e.next(Outcome::Docker(Ok(Ran {
        success: true,
        stdout: r#"{"stat":{"value":2}}"#.to_string(),
        stdout_is_utf8: false,
        stderr: String::new(),
    }))));
    assert_eq!(r.body, r#"{"users":[{"email":"a@vpn","online":0}]}"#);
}

#[test]
fn online_counts_are_read_from_the_answer() {
    assert_eq!(parse_statsonline(r#"{"stat":{"value":5}}"#), 5);
    assert_eq!(parse_statsonline(r#"{"stat":{"value":-5}}"#), 0);
    assert_eq!(parse_statsonline(r#"{"stat":{"value":"5"}}"#), 0);
    assert_eq!(parse_statsonline(r#"{"stat":{"value":4294967297}}"#), 1);
    assert_eq!(parse_statsonline("?"), 0);
    assert_eq!(statsonline_from(&None), 0);
}

#[test]
fn adding_a_user_reaches_the_disk_after_the_bridge() {
    let route = Route::AddUser { uuid: "u9".to_string(), email: "c@vpn".to_string() };
    let e = Exchange::begin(route, "bridge");
    assert_eq!(
        docker_args(&e),
        vec![
            "exec",
            "-i",
            "bridge",
            "sh",
            "-c",
            r#"echo '{"inboundTag":"client-in","user":{"email":"c@vpn","level":0,"account":{"id":"u9","encryption":"none"}}}' | xray api adu -s 127.0.0.1:8080"#
        ]
    );
    let e = e.next(ran(true, "", ""));
    assert!(matches!(e.task(), Some(Task::ReadConfig)));
    let e = e.next(Outcome::Read(Ok(CONFIG.to_string())));
    let written = match e.task() {
        Some(Task::WriteConfig(text)) => text,
        other => panic!("{:?}", other),
    };
    assert!(written.contains("{\n            \"email\": \"c@vpn\",\n            \"id\": \"u9\"\n"));
    let (r, w) = finished(e.next(Outcome::Written(Ok(()))));
    assert_eq!((r.body.as_str(), w), ("{\"ok\":true}", None));
}

#[test]
fn a_refused_change_never_reaches_the_disk() {
    let e = Exchange::begin(Route::DelUser { email: "a@vpn".to_string() }, "bridge");
    assert_eq!(
        docker_args(&e),
        vec![
            "exec", "bridge", "xray", "api", "rmu", "-s", "127.0.0.1:8080", "-tag=client-in",
            "a@vpn"
        ]
    );
    let (r, w) = finished(e.next(ran(false, "", " unknown user\n")));
    assert_eq!((r.status, r.body.as_str(), w), (500, "{\"error\":\"unknown user\"}", None));
}

#[test]
fn a_change_that_cannot_be_kept_is_only_warned_of() {
    let begun = || {
        Exchange::begin(Route::DelUser { email: "a@vpn".to_string() }, "bridge")
            .next(ran(true, "", ""))
    };
    let (r, w) = finished(begun().next(Outcome::Read(Err("gone".to_string()))));
    assert_eq!((r.status, w.as_deref()), (200, Some("read config: gone")));
    let (r, w) = finished(begun().next(Outcome::Read(Ok("{}".to_string()))));
    assert_eq!((r.status, w.as_deref()), (200, Some("no clients array in config")));
    let (r, w) = finished(begun().next(Outcome::Read(Ok("{".to_string()))));
    assert_eq!(r.status, 200);
    assert!(w.unwrap().starts_with("parse config: "));
    let e = begun().next(Outcome::Read(Ok(CONFIG.to_string())));
    let (r, w) = finished(e.next(Outcome::Written(Err("full".to_string()))));
    assert_eq!((r.status, w.as_deref()), (200, Some("write config: full")));
}

#[test]
fn what_is_already_so_is_not_written() {
    let add = Change::Add { uuid: "u2".to_string(), email: "new@vpn".to_string() };
    assert_eq!(persist(&add, Json::parse(CONFIG)).unwrap(), None);
    let del = Change::Del { email: "nobody@vpn".to_string() };
    assert_eq!(persist(&del, Json::parse(CONFIG)).unwrap(), None);
}

#[test]
fn removing_a_user_keeps_the_others() {
    let del = Change::Del { email: "a@vpn".to_string() };
    let text = persist(&del, Json::parse(CONFIG)).unwrap().unwrap();
    let left = amnezia_xray_admin::bridge_config::user_emails(&Json::parse(&text).unwrap());
    assert_eq!(left, vec!["b@vpn"]);
    assert!(text.contains("\"u2\""));
    assert!(!text.contains("\"u1\""));
}

#[test]
fn a_failed_docker_is_reported() {
    let down = || Outcome::Docker(Err("down".to_string()));
    let (r, _) = finished(Exchange::begin(Route::Stats, "b").next(down()));
    assert_eq!((r.status, r.body.as_str()), (500, "{\"error\":\"down\"}"));
    let del = Route::DelUser { email: "e".to_string() };
    let (r, _) = finished(Exchange::begin(del, "b").next(down()));
    assert_eq!((r.status, r.body.as_str()), (500, "{\"error\":\"down\"}"));
}
