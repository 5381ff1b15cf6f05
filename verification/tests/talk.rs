use amnezia_xray_admin::config::Config;
use amnezia_xray_admin::error::AppError;
use amnezia_xray_admin::telegram::keyboards::{
    build_user_keyboard, format_skipped_names, upgrade_keyboard, Keyboard, CONFIG_PREFIX,
    DELETE_PREFIX, MAX_CALLBACK_DATA_BYTES,
};
use amnezia_xray_admin::telegram::talk::{
    document_failure, handle_callback, handle_command, public_commands, Act, Command, Note, Opening,
    Talk,
};
use amnezia_xray_admin::telegram::texts::{format_urls, format_users_message_with_bridge};
use amnezia_xray_admin::work::{Got, Need, SnapshotInfo, UpgradeResult};
use amnezia_xray_admin::xray::client::ServerInfo;
use amnezia_xray_admin::xray::types::{TrafficStats, XrayUser};

const ADMIN: i64 = 42;

fn config(bridge: bool) -> Config {
    Config {
        telegram_admin_chat_id: Some(ADMIN),
        bridge_agent_url: if bridge { Some("http://b/key".to_string()) } else { None },
        ..Config::default()
    }
}

fn user(id: &str, name: &str) -> XrayUser {
    XrayUser {
        uuid: id.to_string(),
        name: name.to_string(),
        email: format!("{}@vpn", name),
        flow: String::new(),
        stats: TrafficStats { uplink: 0, downlink: 0 },
        online_count: 0,
    }
}

fn users() -> Got {
    Got::Users(vec![user("u1", "alice"), user("u2", "bob")])
}

fn error(m: &str) -> Got {
    Got::Failed(AppError::Xray(m.to_string()))
}

fn text(s: &str) -> Got {
    Got::Text(s.to_string())
}

fn info() -> ServerInfo {
    ServerInfo { version: "1.0".to_string(), uplink: 1024, downlink: 2048 }
}

fn snapshot(tag: &str) -> SnapshotInfo {
    SnapshotInfo { tag: tag.to_string(), version: "1.0".to_string(), users_count: 2 }
}

fn said(o: Opening) -> Talk {
    assert!(o.acts.is_empty());
    o.talk
}

fn command(bridge: bool, c: Command) -> Talk {
    said(handle_command(&config(bridge), ADMIN, c))
}

fn button(data: &str) -> Opening {
    handle_callback(&config(false), ADMIN, data)
}

fn done(t: Talk) -> Vec<Act> {
    match t {
        Talk::Done { acts } => acts,
        other => panic!("not over: {:?}", other),
    }
}

fn sent(t: Talk) -> Note {
    let mut acts = done(t);
    assert_eq!(acts.len(), 1);
    match acts.remove(0) {
        Act::Send(n) => n,
        other => panic!("{:?}", other),
    }
}

fn data_of(k: &Keyboard) -> Vec<Vec<&str>> {
    k.inline_keyboard.iter().map(|r| r.iter().map(|b| b.data.as_str()).collect()).collect()
}

#[test]
fn strangers_are_denied_whatever_they_ask() {
    for c in [Command::Start, Command::Help, Command::Users, Command::Upgrade] {
        let o = handle_command(&config(false), 7, c);
        assert_eq!(sent(said(o)).text, "Access denied. Contact the server administrator.");
    }
    let acts = done(handle_callback(&config(false), 7, "delete_confirm:u1").talk);
    assert!(matches!(&acts[0], Act::Answer(Some(t)) if t == "Access denied."));
    assert_eq!(acts.len(), 1);
    let nobody = Config::default();
    assert!(sent(said(handle_command(&nobody, 0, Command::Start))).text.contains("denied"));
}

#[test]
fn the_admin_is_welcomed() {
    assert!(sent(command(false, Command::Start)).text.starts_with("Welcome, admin!"));
    assert!(sent(command(false, Command::Help)).text.starts_with("Commands:\n/add"));
}

#[test]
fn commands_are_listed_with_their_descriptions() {
    let named: Vec<String> =
        Command::bot_commands().into_iter().map(|c| c.command).collect();
    assert_eq!(
        named,
        vec![
            "start", "help", "users", "status", "add", "del", "config", "qr", "snapshot",
            "snapshots", "restore", "upgrade"
        ]
    );
    let public = public_commands();
    assert_eq!(public.len(), 2);
    assert_eq!(public[1].description, "Show help");
}

#[test]
fn users_are_listed_with_their_traffic() {
    let t = command(false, Command::Users);
    assert!(matches!(t.need(), Some(Need::Users)));
    let t = t.next(users());
    assert!(matches!(t.need(), Some(Need::Traffic(e)) if e == ["alice@vpn", "bob@vpn"]));
    let t = t.next(Got::Traffic(vec![
        (Some(TrafficStats { uplink: 1024, downlink: 0 }), Some(2)),
        (None, None),
    ]));
    assert_eq!(sent(t).text, "👥 Users:\n\n🟢 2 alice ↑1.0 KB ↓0 B\n⚪ bob ↑0 B ↓0 B");
    assert_eq!(sent(command(false, Command::Users).next(error("x"))).text, "Error: x");
}

#[test]
fn the_bridge_is_asked_where_there_is_one() {
    let traffic = || Got::Traffic(vec![(None, None), (None, None)]);
    let t = command(true, Command::Users).next(users()).next(traffic());
    assert!(matches!(t.need(), Some(Need::BridgeStats)));
    let stats = r#"{"stat":[{"name":"user>>>bob@vpn>>>traffic>>>uplink","value":2048}]}"#;
    let t = t.next(Got::Maybe(Some(stats.to_string())));
    assert_eq!(
        sent(t).text,
        "👥 Users:\n\n⚪ alice: — 🌐\n⚪ bob: ↑2.0 KB ↓0 B 🌐\n\n🏠 bridge  ✈️ direct  🌐 both"
    );
    let t = command(true, Command::Users).next(users()).next(traffic()).next(Got::Maybe(None));
    assert!(sent(t).text.contains("⚪ bob ↑0 B ↓0 B"));
}

#[test]
fn users_of_the_bridge_alone_come_last() {
    let rows = vec![
        (user("u1", "alice"), TrafficStats { uplink: 1, downlink: 2 }, 1),
        (user("u0", "bridge"), TrafficStats { uplink: 9, downlink: 9 }, 9),
    ];
    let stats = vec![
        ("carol@vpn".to_string(), 3, 4),
        ("bridge@vpn".to_string(), 9, 9),
    ];
    assert_eq!(
        format_users_message_with_bridge(&rows, &stats),
        "👥 Users:\n\n🟢 1 alice: ↑1 B ↓2 B 🌐\n⚪ carol: ↑3 B ↓4 B 🏠\n\n🏠 bridge  ✈️ direct  🌐 both"
    );
    assert!(format_users_message_with_bridge(&rows, &[]).contains("alice: ↑1 B ↓2 B ✈️"));
    assert_eq!(format_users_message_with_bridge(&[], &[]), "No users found.");
}

#[test]
fn traffic_on_both_sides_is_shown() {
    let both = TrafficStats { uplink: 104857600, downlink: 104857600 };
    let rows = vec![
        (user("u1", "Alice"), both, 0),
        (user("u2", "bob"), TrafficStats { uplink: 0, downlink: 0 }, 0),
    ];
    let stats = vec![
        (rows[0].0.email.clone(), 2147483648, 2147483648),
        (rows[1].0.email.clone(), 0, 0),
    ];
    assert_eq!(
        format_users_message_with_bridge(&rows, &stats),
        "👥 Users:\n\n⚪ Alice: ↑100.0 MB ↓100.0 MB + ↑2.0 GB ↓2.0 GB 🌐\n⚪ bob: ↑0 B ↓0 B 🌐\n\n🏠 bridge  ✈️ direct  🌐 both"
    );
}

#[test]
fn the_status_counts_connections() {
    let begun = |bridge: bool| {
        command(bridge, Command::Status)
            .next(Got::Info(info()))
            .next(users())
            .next(Got::Counts(vec![Some(2), None]))
            .next(text("Up 3 days"))
            .next(Got::Maybe(Some("1.1".to_string())))
    };
    let plain = "📊 Server Status:\n\nXray: v1.0 (⬆️ v1.1 available)\nUptime: Up 3 days\nUsers: 2 (2 online)\nUpload: 1.0 KB\nDownload: 2.0 KB";
    assert_eq!(sent(begun(false)).text, plain);
    let t = begun(true);
    assert!(matches!(t.need(), Some(Need::BridgeHealth)));
    assert_eq!(sent(t.next(Got::Yes(true))).text, format!("{}\nBridge: ✅ online", plain));
    let down = format!("{}\nBridge: ❌ offline", plain);
    assert_eq!(sent(begun(true).next(Got::Yes(false))).text, down);
    assert_eq!(sent(begun(true).next(error("x"))).text, down);
}

#[test]
fn a_user_is_added_and_told_to_the_bridge() {
    let t = command(true, Command::Add(" carol ".to_string()));
    assert!(matches!(t.need(), Some(Need::AddUser(n)) if n == "carol"));
    let t = t.next(text("u9"));
    assert!(matches!(t.need(), Some(Need::BridgeUrl(u)) if u == "u9"));
    let t = t.next(text("B"));
    assert!(matches!(t.need(), Some(Need::DirectUrl(u)) if u == "u9"));
    let t = t.next(text("D"));
    assert!(
        matches!(t.need(), Some(Need::Register { uuid, email }) if uuid == "u9" && email == "carol@vpn")
    );
    let note = sent(t.next(error("bridge down")));
    assert!(note.html);
    assert_eq!(
        note.text,
        "✅ User 'carol' added.\n\nUUID: u9\n\n🏠 Для России:\n<pre>B</pre>\n\n✈️ Из-за рубежа:\n<pre>D</pre>"
    );
    let t = command(false, Command::Add("carol".to_string()))
        .next(text("u9"))
        .next(text("B"))
        .next(text("D"));
    assert!(sent(t).text.contains("UUID: u9"));
}

#[test]
fn bad_names_are_explained_before_any_work() {
    let note = sent(command(false, Command::Add(" ".to_string())));
    assert_eq!((note.text.as_str(), note.html), ("Usage: /add <name>", false));
    let t = command(false, Command::Add("x".to_string())).next(error("taken"));
    assert_eq!(sent(t).text, "Error: taken");
}

#[test]
fn a_deletion_is_asked_for_twice() {
    let t = command(false, Command::Del("bob".to_string())).next(users());
    let note = sent(t);
    assert_eq!(
        note.text,
        "⚠️ Delete user 'bob'?\n\nThis will revoke their access immediately."
    );
    assert_eq!(
        data_of(&note.keyboard.unwrap()),
        vec![vec!["delete_confirm:u2", "delete_cancel:u2"]]
    );

    let t = said(button("delete_confirm:u2"));
    assert!(matches!(t.need(), Some(Need::Users)));
    let t = t.next(users());
    assert!(matches!(t.need(), Some(Need::RemoveUser(u)) if u == "u2"));
    let acts = done(t.next(Got::Done));
    assert!(matches!(&acts[0], Act::Answer(None)));
    assert!(matches!(&acts[1], Act::Edit(n) if n.text == "🗑 User 'bob' deleted."));
}

#[test]
fn a_deletion_is_told_to_the_bridge() {
    let o = handle_callback(&config(true), ADMIN, "delete_confirm:u2");
    let t = said(o).next(users()).next(Got::Done);
    assert!(matches!(t.need(), Some(Need::Unregister(e)) if e == "bob@vpn"));
    let acts = done(t.next(error("down")));
    assert!(matches!(&acts[1], Act::Edit(n) if n.text == "🗑 User 'bob' deleted."));
}

#[test]
fn an_unknown_id_is_shown_short() {
    let t = said(button("delete_confirm:0123456789")).next(users()).next(Got::Done);
    let acts = done(t);
    assert!(matches!(&acts[1], Act::Edit(n) if n.text == "🗑 User '01234567' deleted."));
}

#[test]
fn nothing_is_deleted_on_cancel() {
    let acts = done(button("delete_cancel:u2").talk);
    assert!(matches!(&acts[0], Act::Answer(None)));
    assert!(matches!(&acts[1], Act::Edit(n) if n.text == "Deletion cancelled."));
}

#[test]
fn buttons_lead_on() {
    let t = command(false, Command::Del(String::new())).next(users());
    let note = sent(t);
    assert_eq!(note.text, "Select a user to delete:");
    assert_eq!(data_of(&note.keyboard.unwrap()), vec![vec!["delete:alice"], vec!["delete:bob"]]);
    let acts = done(said(button("delete:bob")).next(users()));
    assert!(matches!(&acts[0], Act::Answer(None)));
    match &acts[1] {
        Act::Edit(n) => assert!(n.text.starts_with("⚠️ Delete user 'bob'?")),
        other => panic!("{:?}", other),
    }
    let acts = done(said(button("delete:eve")).next(users()));
    assert!(matches!(&acts[0], Act::Answer(Some(t)) if t == "Error: user 'eve' not found"));
    assert_eq!(acts.len(), 1);
}

#[test]
fn users_to_choose_from_may_be_missing() {
    let t = command(false, Command::Config(String::new())).next(Got::Users(Vec::new()));
    assert_eq!(sent(t).text, "No users found.");
    let t = command(false, Command::Qr(String::new())).next(users());
    let note = sent(t);
    assert_eq!(note.text, "Select a user:");
    assert_eq!(data_of(&note.keyboard.unwrap())[0], vec!["qr:alice"]);
}

#[test]
fn both_urls_are_sent() {
    let both = format_urls("B", "D");
    assert_eq!(both, "🏠 Для России:\n<pre>B</pre>\n\n✈️ Из-за рубежа:\n<pre>D</pre>");
    let t = command(false, Command::Config("bob".to_string())).next(users());
    let note = sent(t.next(text("B")).next(text("D")));
    assert_eq!((note.text.as_str(), note.html), (both.as_str(), true));
    for data in ["config:bob", "url:bob"] {
        let t = said(button(data)).next(users()).next(text("B")).next(text("D"));
        let acts = done(t);
        assert!(matches!(&acts[0], Act::Answer(None)));
        assert!(matches!(&acts[1], Act::Edit(n) if n.text == both && n.html));
    }
    let t = command(false, Command::Config("eve".to_string())).next(users());
    assert_eq!(sent(t).text, "Error: user 'eve' not found");
}

#[test]
fn both_codes_are_sent() {
    let t = command(false, Command::Qr("bob".to_string()))
        .next(users())
        .next(text("B"))
        .next(text("D"));
    assert!(matches!(t.need(), Some(Need::Qr(u)) if u == "B"));
    let t = t.next(Got::Bytes(vec![1]));
    assert!(matches!(t.need(), Some(Need::Qr(u)) if u == "D"));
    let acts = done(t.next(Got::Bytes(vec![2])));
    assert!(
        matches!(&acts[0], Act::Photo { png, caption } if *png == [1] && caption == "🏠 Bridge (censored regions) — bob")
    );
    assert!(
        matches!(&acts[1], Act::Photo { png, caption } if *png == [2] && caption == "🌍 Direct (abroad) — bob")
    );
    assert_eq!(acts.len(), 2);
}

#[test]
fn a_button_for_a_code_is_answered_first() {
    let o = button("qr:bob");
    assert!(matches!(&o.acts[0], Act::Answer(None)));
    let t = o.talk.next(users()).next(text("B")).next(text("D"));
    let t = t.next(Got::Bytes(vec![1])).next(Got::Bytes(vec![2]));
    let acts = done(t);
    assert!(matches!(&acts[2], Act::Edit(n) if n.text == "QR for bob"));
    let t = button("qr:bob").talk.next(users()).next(text("B")).next(text("D"));
    let note = sent(t.next(Got::Refused("too long".to_string())));
    assert_eq!(note.text, "Error: QR generation failed: too long");
}

#[test]
fn a_snapshot_is_sent_as_a_document() {
    let o = handle_command(&config(false), ADMIN, Command::Snapshot);
    assert!(
        matches!(&o.acts[0], Act::Send(n) if n.text == "Creating snapshot..." && !n.needed)
    );
    let t = o.talk.next(Got::Snapshot(snapshot("t1")));
    assert!(matches!(t.need(), Some(Need::Pack(tag)) if tag == "t1"));
    let acts = done(t.next(Got::Bytes(vec![7])));
    match &acts[0] {
        Act::Document { bytes, name, caption, told } => {
            assert_eq!(*bytes, vec![7]);
            assert_eq!(name, "snapshot-t1.tar.gz");
            assert_eq!(caption, "📦 Snapshot t1 | v1.0 | 2 users");
            assert!(told);
        }
        other => panic!("{:?}", other),
    }
    assert_eq!(document_failure("x"), "Error: failed to send document: x");
}

#[test]
fn snapshots_are_listed_and_restored() {
    let some = || Got::Snapshots(["a", "b", "c", "d", "e", "f"].map(snapshot).to_vec());
    let t = command(false, Command::Snapshots).next(Got::Snapshots(vec![snapshot("a")]));
    assert_eq!(sent(t).text, "📋 Snapshots:\n\n  a | v1.0 | 2 users");
    let t = command(false, Command::Snapshots).next(Got::Snapshots(Vec::new()));
    assert_eq!(sent(t).text, "No snapshots found.");

    let note = sent(command(false, Command::Restore(String::new())).next(some()));
    assert_eq!(note.text, "Select a snapshot to restore:");
    assert_eq!(
        data_of(&note.keyboard.unwrap()),
        vec![["restore:f"], ["restore:e"], ["restore:d"], ["restore:c"], ["restore:b"]]
    );
    let t = command(false, Command::Restore(String::new())).next(Got::Snapshots(Vec::new()));
    assert_eq!(sent(t).text, "No snapshots found.");

    let o = button("restore:f");
    assert!(matches!(&o.acts[0], Act::Answer(None)));
    assert!(
        matches!(&o.acts[1], Act::Edit(n) if n.text == "Restoring from snapshot [f]...")
    );
    assert!(matches!(o.talk.need(), Some(Need::Restore(t)) if t == "f"));
    assert_eq!(
        sent(o.talk.next(Got::Done)).text,
        "✅ Restored from snapshot [f]. Container restarted."
    );
    let t = command(false, Command::Restore(" f ".to_string())).next(error("gone"));
    assert_eq!(sent(t).text, "Error: gone");
}

#[test]
fn an_upgrade_is_offered_and_confirmed() {
    let t = command(false, Command::Upgrade).next(Got::Info(info()));
    let note = sent(t.next(text("1.0")));
    assert_eq!(note.text, "✅ Already on latest version v1.0. Nothing to do.");
    let t = command(false, Command::Upgrade).next(Got::Info(info()));
    let note = sent(t.next(text("1.1")));
    assert_eq!(
        note.text,
        "⚠️ Upgrade Xray v1.0 → v1.1?\n\nThis will restart the container and briefly drop all VPN connections.\nA snapshot will be created automatically before upgrading."
    );
    assert_eq!(
        data_of(&note.keyboard.unwrap()),
        vec![vec!["upgrade_confirm", "upgrade_cancel"]]
    );
    assert_eq!(data_of(&upgrade_keyboard()), vec![vec!["upgrade_confirm", "upgrade_cancel"]]);

    let acts = done(button("upgrade_cancel").talk);
    assert!(matches!(&acts[1], Act::Edit(n) if n.text == "Upgrade cancelled."));
}

#[test]
fn an_upgrade_keeps_what_was_there_before() {
    let result = || {
        Got::Upgraded(UpgradeResult {
            old_version: "1.0".to_string(),
            new_version: "1.1".to_string(),
            snapshot_tag: "t".to_string(),
        })
    };
    let t = button("upgrade_confirm").talk.next(result());
    assert!(matches!(t.need(), Some(Need::Pack(tag)) if tag == "t"));
    let acts = done(t.next(Got::Bytes(vec![1])));
    match &acts[0] {
        Act::Document { name, caption, told, .. } => {
            assert_eq!(name, "pre-upgrade-t.tar.gz");
            assert_eq!(caption, "📦 Pre-upgrade backup (v1.0)");
            assert!(!told);
        }
        other => panic!("{:?}", other),
    }
    assert!(
        matches!(&acts[1], Act::Send(n) if n.text == "✅ Upgraded! v1.0 → v1.1\nSnapshot: t" && !n.needed)
    );

    let t = button("upgrade_confirm").talk.next(result());
    let acts = done(t.next(error("disk")));
    assert!(
        matches!(&acts[0], Act::Send(n) if n.text == "Warning: could not pack backup: disk")
    );
    let t = button("upgrade_confirm").talk.next(error("no"));
    assert_eq!(sent(t).text, "Error: no");
}

#[test]
fn unknown_buttons_do_nothing() {
    let o = button("hello");
    assert!(o.acts.is_empty());
    assert!(done(o.talk).is_empty());
}

#[test]
fn no_button_holds_more_than_the_limit() {
    let long = "n".repeat(57);
    let longer = "n".repeat(58);
    let r = build_user_keyboard(&[user("1", &long), user("2", &longer)], DELETE_PREFIX);
    assert_eq!(r.keyboard.inline_keyboard.len(), 1);
    assert_eq!(r.keyboard.inline_keyboard[0][0].data.len(), MAX_CALLBACK_DATA_BYTES);
    assert_eq!(r.skipped_names, vec![longer.clone()]);
    let r = build_user_keyboard(&[user("2", &longer)], CONFIG_PREFIX);
    assert!(r.keyboard.inline_keyboard.is_empty());
}

#[test]
fn skipped_names_fit() {
    let names: Vec<String> = ["aaaa", "bbbb", "cccc"].map(str::to_string).to_vec();
    assert_eq!(format_skipped_names(&names, 100), "aaaa, bbbb, cccc");
    assert_eq!(format_skipped_names(&names, 20), "aaaa, bbbb, cccc");
    assert_eq!(format_skipped_names(&names, 16), "aaaa, bbbb, cccc");
    assert_eq!(format_skipped_names(&names, 15), "aaaa and 2 more");
    let two: Vec<String> = ["aaaa", "b"].map(str::to_string).to_vec();
    assert_eq!(format_skipped_names(&two, 7), "aaaa, b");
    assert_eq!(format_skipped_names(&names, 6), "aaa...");
    assert_eq!(format_skipped_names(&["ééé".to_string()], 5), "é...");
    assert_eq!(format_skipped_names(&[], 5), "");
}
