//! What the bot says.

use crate::bridge_client;
use crate::decimal;
use crate::decimal::u64_text;
use crate::display;
use crate::display::{call, format_bytes};
use crate::seqs;
use crate::text;
use crate::text::{
    byte_len, cat2, cat3, cat4, cat5, char_is_ctrl, chars_of, contains, contains_char,
    is_empty, join, no_texts, push_text, same, strip_suffix, trim,
};
use crate::xray::client::ServerInfo;
use crate::xray::types::{TrafficStats, UserV, XrayUser};
use vstd::prelude::*;

verus! {

/// The /help response.
pub fn help_text() -> (r: String)
    ensures
        r@
            == "Commands:\n/add <name> - Add user\n/del <name> - Delete user\n/config <name> - Get connection config\n/qr <name> - Get QR code\n/users - List users\n/status - Server info\n/snapshot - Create backup\n/upgrade - Upgrade Xray"@,
{
    "Commands:\n/add <name> - Add user\n/del <name> - Delete user\n/config <name> - Get connection config\n/qr <name> - Get QR code\n/users - List users\n/status - Server info\n/snapshot - Create backup\n/upgrade - Upgrade Xray".to_owned()
}

/// The welcome to the administrator after /start.
pub fn welcome_text() -> (r: String)
    ensures
        r@ == "Welcome, admin!\n\nUse /help to see available commands."@,
{
    "Welcome, admin!\n\nUse /help to see available commands.".to_owned()
}

/// What everybody else is told.
pub fn access_denied_text() -> (r: String)
    ensures
        r@ == "Access denied. Contact the server administrator."@,
{
    "Access denied. Contact the server administrator.".to_owned()
}

// ---- users ----

/// A user with its traffic and the number of its connections.
pub open spec fn row_view(x: (XrayUser, TrafficStats, u32)) -> (UserV, TrafficStats, u32) {
    (x.0@, x.1, x.2)
}

/// The meanings of the rows of a list.
pub open spec fn row_views(s: Seq<(XrayUser, TrafficStats, u32)>) -> Seq<
    (UserV, TrafficStats, u32),
> {
    Seq::new(s.len(), |i: int| row_view(s[i]))
}

/// Whether a user is online, and how often.
pub open spec fn online_mark(n: u32) -> Seq<char> {
    if n > 0 {
        "🟢 "@ + decimal::dec(n as nat)
    } else {
        "⚪"@
    }
}

/// Traffic in both directions.
pub open spec fn traffic_text(up: nat, down: nat) -> Seq<char> {
    "↑"@ + display::bytes_text(up) + " ↓"@ + display::bytes_text(down)
}

/// The line of a user.
pub open spec fn user_line(row: (UserV, TrafficStats, u32)) -> Seq<char> {
    online_mark(row.2) + " "@ + display::called(row.0.name, row.0.uuid) + " "@ + traffic_text(
        row.1.uplink as nat,
        row.1.downlink as nat,
    )
}

/// The lines of a list of users, with its heading.
pub open spec fn users_text(rows: Seq<(UserV, TrafficStats, u32)>) -> Seq<char> {
    if rows.len() == 0 {
        "No users found."@
    } else {
        text::joined(
            seq!["👥 Users:"@, Seq::empty()] + Seq::new(rows.len(), |i: int| user_line(rows[i])),
            "\n"@,
        )
    }
}

fn online_text(n: u32) -> (r: String)
    ensures
        r@ == online_mark(n),
{
    if n > 0 {
        cat2("🟢 ", &u64_text(n as u64))
    } else {
        "⚪".to_owned()
    }
}

fn traffic(up: u64, down: u64) -> (r: String)
    ensures
        r@ == traffic_text(up as nat, down as nat),
{
    cat4("↑", &format_bytes(up), " ↓", &format_bytes(down))
}

fn heading() -> (r: Vec<String>)
    ensures
        text::texts(r@) == seq!["👥 Users:"@, Seq::<char>::empty()],
{
    let mut lines = no_texts();
    push_text(&mut lines, "👥 Users:".to_owned());
    push_text(&mut lines, String::new());
    assert(text::texts(lines@) =~= seq!["👥 Users:"@, Seq::<char>::empty()]);
    lines
}

/// The /users response: users with their traffic.
pub fn format_users_message(users: &[(XrayUser, TrafficStats, u32)]) -> (r: String)
    ensures
        r@ == users_text(row_views(users@)),
{
    if users.len() == 0 {
        return "No users found.".to_owned();
    }
    let mut lines = heading();
    let ghost rows = row_views(users@);
    let mut i: usize = 0;
    while i < users.len()
        invariant
            i <= users@.len(),
            rows == row_views(users@),
            text::texts(lines@) =~= seq!["👥 Users:"@, Seq::<char>::empty()] + Seq::new(
                i as nat,
                |j: int| user_line(rows[j]),
            ),
        decreases users.len() - i,
    {
        let row = &users[i];
        let line = cat5(
            &online_text(row.2),
            " ",
            &call(&row.0.name, &row.0.uuid),
            " ",
            &traffic(row.1.uplink, row.1.downlink),
        );
        assert(line@ == user_line(rows[i as int]));
        push_text(&mut lines, line);
        i += 1;
    }
    join(&lines, "\n")
}

// ---- users with the bridge ----

/// The user has had traffic on the server.
pub open spec fn has_traffic(stats: TrafficStats) -> bool {
    stats.uplink > 0 || stats.downlink > 0
}

/// The traffic of a user: what it had on the server, plus what the bridge knows of it. A side
/// without traffic is left out, unless the bridge knows the user; a dash stands for none at all.
pub open spec fn merged_traffic(
    row: (UserV, TrafficStats, u32),
    bridge: Seq<(Seq<char>, nat, nat)>,
) -> Seq<char> {
    match bridge_client::place(bridge, row.0.email, 0) {
        Some(i) => if has_traffic(row.1) {
            traffic_text(row.1.uplink as nat, row.1.downlink as nat) + " + "@ + traffic_text(
                bridge[i].1,
                bridge[i].2,
            )
        } else {
            traffic_text(bridge[i].1, bridge[i].2)
        },
        None => if has_traffic(row.1) {
            traffic_text(row.1.uplink as nat, row.1.downlink as nat)
        } else {
            "—"@
        },
    }
}

/// The line of a user of the server, with a mark that says where it is registered.
pub open spec fn merged_line(
    row: (UserV, TrafficStats, u32),
    bridge: Seq<(Seq<char>, nat, nat)>,
) -> Seq<char> {
    online_mark(row.2) + " "@ + display::called(row.0.name, row.0.uuid) + ": "@ + merged_traffic(
        row,
        bridge,
    ) + (if bridge.len() > 0 {
        " 🌐"@
    } else {
        " ✈️"@
    })
}

/// A user of its own, and not the account of the bridge.
pub open spec fn not_bridge() -> spec_fn((UserV, TrafficStats, u32)) -> bool {
    |row: (UserV, TrafficStats, u32)| row.0.email != "bridge@vpn"@
}

/// The name that an email stands for.
pub open spec fn name_of(email: Seq<char>) -> Seq<char> {
    match text::before_suffix(email, "@vpn"@) {
        Some(n) => n,
        None => email,
    }
}

/// One of the rows has the email.
pub open spec fn knows(rows: Seq<(UserV, TrafficStats, u32)>, email: Seq<char>) -> bool {
    exists|i: int| 0 <= i < rows.len() && (#[trigger] rows[i]).0.email == email
}

/// A user that only the bridge knows.
pub open spec fn only_on_bridge(rows: Seq<(UserV, TrafficStats, u32)>) -> spec_fn(
    (Seq<char>, nat, nat),
) -> bool {
    |x: (Seq<char>, nat, nat)| !knows(rows, x.0) && name_of(x.0) != "bridge"@
}

/// The line of a user that only the bridge knows.
pub open spec fn bridge_line(x: (Seq<char>, nat, nat)) -> Seq<char> {
    "⚪ "@ + name_of(x.0) + ": "@ + traffic_text(x.1, x.2) + " 🏠"@
}

/// The lines of all users: those of the server, then those that only the bridge knows.
pub open spec fn merged_lines(
    rows: Seq<(UserV, TrafficStats, u32)>,
    bridge: Seq<(Seq<char>, nat, nat)>,
) -> Seq<Seq<char>> {
    rows.filter(not_bridge()).map_values(
        |row: (UserV, TrafficStats, u32)| merged_line(row, bridge),
    ) + bridge.filter(only_on_bridge(rows)).map_values(
        |x: (Seq<char>, nat, nat)| bridge_line(x),
    )
}

/// The list of all users, with its heading and what its marks mean.
pub open spec fn merged_text(
    rows: Seq<(UserV, TrafficStats, u32)>,
    bridge: Seq<(Seq<char>, nat, nat)>,
) -> Seq<char> {
    let lines = merged_lines(rows, bridge);
    if lines.len() == 0 {
        "No users found."@
    } else {
        text::joined(
            seq!["👥 Users:"@, Seq::empty()] + lines + seq![
                Seq::empty(),
                "🏠 bridge  ✈️ direct  🌐 both"@,
            ],
            "\n"@,
        )
    }
}

fn bridge_place(bridge: &[(String, u64, u64)], email: &str) -> (r: Option<usize>)
    ensures
        match r {
            Some(i) => bridge_client::place(bridge_client::traffic_views(bridge@), email@, 0)
                == Some(i as int) && i < bridge@.len(),
            None => bridge_client::place(bridge_client::traffic_views(bridge@), email@, 0) is None,
        },
{
    let ghost t = bridge_client::traffic_views(bridge@);
    let mut i: usize = 0;
    while i < bridge.len()
        invariant
            t == bridge_client::traffic_views(bridge@),
            i <= bridge@.len(),
            bridge_client::place(t, email@, 0) == bridge_client::place(t, email@, i as int),
        decreases bridge.len() - i,
    {
        if same(&bridge[i].0, email) {
            return Some(i);
        }
        i += 1;
    }
    None
}

fn merged_row(row: &(XrayUser, TrafficStats, u32), bridge: &[(String, u64, u64)]) -> (r: String)
    ensures
        r@ == merged_line(row_view(*row), bridge_client::traffic_views(bridge@)),
{
    let direct = row.1.uplink > 0 || row.1.downlink > 0;
    let amount = match bridge_place(bridge, &row.0.email) {
        Some(i) => if direct {
            cat3(
                &traffic(row.1.uplink, row.1.downlink),
                " + ",
                &traffic(bridge[i].1, bridge[i].2),
            )
        } else {
            traffic(bridge[i].1, bridge[i].2)
        },
        None => if direct {
            traffic(row.1.uplink, row.1.downlink)
        } else {
            "—".to_owned()
        },
    };
    let mut line = cat5(
        &online_text(row.2),
        " ",
        &call(&row.0.name, &row.0.uuid),
        ": ",
        &amount,
    );
    line.append(
        if bridge.len() > 0 {
            " 🌐"
        } else {
            " ✈️"
        },
    );
    line
}

fn has_email(users: &[(XrayUser, TrafficStats, u32)], email: &str) -> (r: bool)
    ensures
        r == knows(row_views(users@), email@),
{
    let ghost rows = row_views(users@);
    let mut i: usize = 0;
    while i < users.len()
        invariant
            rows == row_views(users@),
            i <= users@.len(),
            forall|j: int| 0 <= j < i ==> (#[trigger] rows[j]).0.email != email@,
        decreases users.len() - i,
    {
        if same(&users[i].0.email, email) {
            assert(rows[i as int].0.email == email@);
            return true;
        }
        assert(rows[i as int].0.email != email@);
        i += 1;
    }
    false
}

fn bridge_row(x: &(String, u64, u64)) -> (r: Option<String>)
    ensures
        match r {
            Some(l) => name_of(x.0@) != "bridge"@ && l@ == bridge_line(
                (x.0@, x.1 as nat, x.2 as nat),
            ),
            None => name_of(x.0@) == "bridge"@,
        },
{
    let name = match strip_suffix(&x.0, "@vpn") {
        Some(n) => n,
        None => x.0.clone(),
    };
    if same(&name, "bridge") {
        None
    } else {
        Some(cat5("⚪ ", &name, ": ", &traffic(x.1, x.2), " 🏠"))
    }
}

fn server_lines(
    users: &[(XrayUser, TrafficStats, u32)],
    bridge: &[(String, u64, u64)],
) -> (lines: Vec<String>)
    ensures
        text::texts(lines@) == seq!["👥 Users:"@, Seq::empty()] + row_views(users@).filter(
            not_bridge(),
        ).map_values(
            |row: (UserV, TrafficStats, u32)|
                merged_line(row, bridge_client::traffic_views(bridge@)),
        ),
{
    let ghost rows = row_views(users@);
    let ghost t = bridge_client::traffic_views(bridge@);
    let ghost f = |row: (UserV, TrafficStats, u32)| merged_line(row, t);
    let ghost head = seq!["👥 Users:"@, Seq::<char>::empty()];
    let mut lines = heading();
    let mut i: usize = 0;
    proof {
        reveal(Seq::filter);
        assert(rows.take(0).filter(not_bridge()).map_values(f) =~= Seq::empty());
    }
    while i < users.len()
        invariant
            rows == row_views(users@),
            t == bridge_client::traffic_views(bridge@),
            f == (|row: (UserV, TrafficStats, u32)| merged_line(row, t)),
            i <= users@.len(),
            text::texts(lines@) =~= head + rows.take(i as int).filter(not_bridge()).map_values(f),
        decreases users.len() - i,
    {
        proof {
            assert(rows.take(i + 1) =~= rows.take(i as int).push(rows[i as int]));
            seqs::lemma_filter_push(rows.take(i as int), rows[i as int], not_bridge());
            let done = rows.take(i as int).filter(not_bridge());
            assert(done.push(rows[i as int]).map_values(f) =~= done.map_values(f).push(
                f(rows[i as int]),
            ));
        }
        if !same(&users[i].0.email, "bridge@vpn") {
            push_text(&mut lines, merged_row(&users[i], bridge));
        }
        i += 1;
    }
    assert(rows.take(i as int) =~= rows);
    lines
}

fn add_bridge_lines(
    lines: &mut Vec<String>,
    users: &[(XrayUser, TrafficStats, u32)],
    bridge: &[(String, u64, u64)],
)
    ensures
        text::texts(final(lines)@) == text::texts(old(lines)@) + bridge_client::traffic_views(
            bridge@,
        ).filter(only_on_bridge(row_views(users@))).map_values(
            |x: (Seq<char>, nat, nat)| bridge_line(x),
        ),
{
    let ghost rows = row_views(users@);
    let ghost t = bridge_client::traffic_views(bridge@);
    let ghost p = only_on_bridge(rows);
    let ghost f = |x: (Seq<char>, nat, nat)| bridge_line(x);
    let ghost before = text::texts(lines@);
    let mut i: usize = 0;
    proof {
        reveal(Seq::filter);
        assert(t.take(0).filter(p).map_values(f) =~= Seq::empty());
    }
    while i < bridge.len()
        invariant
            rows == row_views(users@),
            t == bridge_client::traffic_views(bridge@),
            p == only_on_bridge(rows),
            f == (|x: (Seq<char>, nat, nat)| bridge_line(x)),
            i <= bridge@.len(),
            text::texts(lines@) =~= before + t.take(i as int).filter(p).map_values(f),
        decreases bridge.len() - i,
    {
        proof {
            assert(t.take(i + 1) =~= t.take(i as int).push(t[i as int]));
            seqs::lemma_filter_push(t.take(i as int), t[i as int], p);
            let done = t.take(i as int).filter(p);
            assert(done.push(t[i as int]).map_values(f) =~= done.map_values(f).push(
                f(t[i as int]),
            ));
        }
        if !has_email(users, &bridge[i].0) {
            match bridge_row(&bridge[i]) {
                Some(line) => push_text(lines, line),
                None => {},
            }
        }
        i += 1;
    }
    assert(t.take(i as int) =~= t);
}

/// The /users response with the traffic on the server plus that on the bridge.
pub fn format_users_message_with_bridge(
    users: &[(XrayUser, TrafficStats, u32)],
    bridge_stats: &[(String, u64, u64)],
) -> (r: String)
    ensures
        r@ == merged_text(row_views(users@), bridge_client::traffic_views(bridge_stats@)),
{
    let mut lines = server_lines(users, bridge_stats);
    add_bridge_lines(&mut lines, users, bridge_stats);
    let ghost all = merged_lines(
        row_views(users@),
        bridge_client::traffic_views(bridge_stats@),
    );
    let ghost head = seq!["👥 Users:"@, Seq::<char>::empty()];
    assert(text::texts(lines@) =~= head + all);
    if lines.len() <= 2 {
        return "No users found.".to_owned();
    }
    push_text(&mut lines, String::new());
    push_text(&mut lines, "🏠 bridge  ✈️ direct  🌐 both".to_owned());
    assert(text::texts(lines@) =~= head + all + seq![
        Seq::empty(),
        "🏠 bridge  ✈️ direct  🌐 both"@,
    ]);
    join(&lines, "\n")
}

// ---- single users ----

/// Both URLs of a user, each to be copied.
pub open spec fn urls_text(bridge_url: Seq<char>, direct_url: Seq<char>) -> Seq<char> {
    "🏠 Для России:\n<pre>"@ + bridge_url + "</pre>\n\n✈️ Из-за рубежа:\n<pre>"@ + direct_url
        + "</pre>"@
}

/// Both URLs of a user, each to be copied.
pub fn format_urls(bridge_url: &str, direct_url: &str) -> (r: String)
    ensures
        r@ == urls_text(bridge_url@, direct_url@),
{
    cat5(
        "🏠 Для России:\n<pre>",
        bridge_url,
        "</pre>\n\n✈️ Из-за рубежа:\n<pre>",
        direct_url,
        "</pre>",
    )
}

/// A user was added.
pub open spec fn added_text(
    name: Seq<char>,
    uuid: Seq<char>,
    bridge_url: Seq<char>,
    direct_url: Seq<char>,
) -> Seq<char> {
    "✅ User '"@ + name + "' added.\n\nUUID: "@ + uuid + "\n\n"@ + urls_text(bridge_url, direct_url)
}

/// The /add response.
pub fn format_add_message(name: &str, uuid: &str, bridge_url: &str, direct_url: &str) -> (r: String)
    ensures
        r@ == added_text(name@, uuid@, bridge_url@, direct_url@),
{
    let mut s = cat5("✅ User '", name, "' added.\n\nUUID: ", uuid, "\n\n");
    s.append(&format_urls(bridge_url, direct_url));
    s
}

/// The question before a user is deleted.
pub open spec fn confirm_text(name: Seq<char>) -> Seq<char> {
    "⚠️ Delete user '"@ + name + "'?\n\nThis will revoke their access immediately."@
}

/// The question before a user is deleted.
pub fn format_delete_confirm_message(name: &str) -> (r: String)
    ensures
        r@ == confirm_text(name@),
{
    cat3("⚠️ Delete user '", name, "'?\n\nThis will revoke their access immediately.")
}

/// A user was deleted.
pub open spec fn deleted_text(name: Seq<char>) -> Seq<char> {
    "🗑 User '"@ + name + "' deleted."@
}

/// A user was deleted.
pub fn format_delete_success_message(name: &str) -> (r: String)
    ensures
        r@ == deleted_text(name@),
{
    cat3("🗑 User '", name, "' deleted.")
}

/// One URL of a user, to be copied.
pub fn format_url_message(name: &str, vless_url: &str) -> (r: String)
    ensures
        r@ == "🔗 "@ + name@ + " URL:\n\n<pre>"@ + vless_url@ + "</pre>"@,
{
    cat5("🔗 ", name, " URL:\n\n<pre>", vless_url, "</pre>")
}

/// What is wrong with a name for /add, if anything is.
pub open spec fn name_problem(name: Seq<char>) -> Option<Seq<char>> {
    let t = text::trimmed(name);
    if t.len() == 0 {
        Some("Usage: /add <name>"@)
    } else if text::bytes(t) > 50 {
        Some("Name too long (max 50 bytes)."@)
    } else if exists|i: int| 0 <= i < t.len() && text::is_ctrl(#[trigger] t[i]) {
        Some("Name must not contain control characters."@)
    } else if t.contains('@') || text::has(t, ">>>"@) {
        Some("Name must not contain '@' or '>>>'."@)
    } else {
        None
    }
}

fn has_control(s: &str) -> (r: bool)
    ensures
        r == exists|i: int| 0 <= i < s@.len() && text::is_ctrl(#[trigger] s@[i]),
{
    let v = chars_of(s);
    let mut i: usize = 0;
    while i < v.len()
        invariant
            v@ == s@,
            i <= v@.len(),
            forall|j: int| 0 <= j < i ==> !text::is_ctrl(#[trigger] v@[j]),
        decreases v.len() - i,
    {
        if char_is_ctrl(v[i]) {
            return true;
        }
        i += 1;
    }
    false
}

/// Checks a name for /add. What is wrong with it is returned.
pub fn validate_user_name(name: &str) -> (r: Option<String>)
    ensures
        text::opt_text(r) == name_problem(name@),
{
    let t = trim(name);
    if is_empty(&t) {
        Some("Usage: /add <name>".to_owned())
    } else if byte_len(&t) > 50 {
        Some("Name too long (max 50 bytes).".to_owned())
    } else if has_control(&t) {
        Some("Name must not contain control characters.".to_owned())
    } else if contains_char(&t, '@') || contains(&t, ">>>") {
        Some("Name must not contain '@' or '>>>'.".to_owned())
    } else {
        None
    }
}

// ---- server ----

/// The version that runs, and how it stands to the newest one.
pub open spec fn version_line(version: Seq<char>, latest: Option<Seq<char>>) -> Seq<char> {
    match latest {
        Some(l) => if l != version {
            "Xray: v"@ + version + " (⬆️ v"@ + l + " available)"@
        } else {
            "Xray: v"@ + version + " ✅"@
        },
        None => "Xray: v"@ + version,
    }
}

/// The state of the server.
pub open spec fn status_text(
    info: ServerInfo,
    users: nat,
    online: nat,
    uptime: Seq<char>,
    latest: Option<Seq<char>>,
) -> Seq<char> {
    text::joined(
        seq!["📊 Server Status:"@, Seq::empty(), version_line(info.version@, latest)] + (
        if uptime.len() == 0 {
            Seq::empty()
        } else {
            seq!["Uptime: "@ + uptime]
        }) + seq![
            "Users: "@ + decimal::dec(users) + " ("@ + decimal::dec(online) + " online)"@,
            "Upload: "@ + display::bytes_text(info.uplink as nat),
            "Download: "@ + display::bytes_text(info.downlink as nat),
        ],
        "\n"@,
    )
}

/// The meaning of a text that may be missing.
pub open spec fn opt_str(s: Option<&str>) -> Option<Seq<char>> {
    match s {
        Some(t) => Some(t@),
        None => None,
    }
}

fn version_text(version: &str, latest: Option<&str>) -> (r: String)
    ensures
        r@ == version_line(version@, opt_str(latest)),
{
    match latest {
        Some(l) => if !same(l, version) {
            cat5("Xray: v", version, " (⬆️ v", l, " available)")
        } else {
            cat3("Xray: v", version, " ✅")
        },
        None => cat2("Xray: v", version),
    }
}

/// The /status response: the server and how many users are online.
pub fn format_status_message(
    server_info: &ServerInfo,
    user_count: usize,
    online_count: usize,
    uptime: &str,
    latest_version: Option<&str>,
) -> (r: String)
    ensures
        r@ == status_text(
            *server_info,
            user_count as nat,
            online_count as nat,
            uptime@,
            opt_str(latest_version),
        ),
{
    let mut lines = no_texts();
    push_text(&mut lines, "📊 Server Status:".to_owned());
    push_text(&mut lines, String::new());
    push_text(&mut lines, version_text(&server_info.version, latest_version));
    let ghost head = seq![
        "📊 Server Status:"@,
        Seq::<char>::empty(),
        version_line(server_info.version@, opt_str(latest_version)),
    ];
    assert(text::texts(lines@) =~= head);
    if !is_empty(uptime) {
        push_text(&mut lines, cat2("Uptime: ", uptime));
    }
    let ghost middle = if uptime@.len() == 0 {
        Seq::empty()
    } else {
        seq!["Uptime: "@ + uptime@]
    };
    assert(text::texts(lines@) =~= head + middle);
    push_text(
        &mut lines,
        cat5(
            "Users: ",
            &u64_text(user_count as u64),
            " (",
            &u64_text(online_count as u64),
            " online)",
        ),
    );
    push_text(&mut lines, cat2("Upload: ", &format_bytes(server_info.uplink)));
    push_text(&mut lines, cat2("Download: ", &format_bytes(server_info.downlink)));
    assert(text::texts(lines@) =~= head + middle + seq![
        "Users: "@ + decimal::dec(user_count as nat) + " ("@ + decimal::dec(online_count as nat)
            + " online)"@,
        "Upload: "@ + display::bytes_text(server_info.uplink as nat),
        "Download: "@ + display::bytes_text(server_info.downlink as nat),
    ]);
    join(&lines, "\n")
}

// ---- laws ----

/// How an amount in both directions is shown.
pub open spec fn both_ways(up: nat, down: nat) -> Seq<char> {
    "↑"@ + display::bytes_text(up) + " ↓"@ + display::bytes_text(down)
}

/// How the connections and the name of a user are shown.
pub open spec fn who(u: XrayUser, online: u32) -> Seq<char> {
    (if online > 0 {
        "🟢 "@ + decimal::dec(online as nat)
    } else {
        "⚪"@
    }) + " "@ + display::called(u.name@, u.uuid@)
}

/// **Every user has its own line with its own figures.** A list with one user more says the same of
/// the others, and then, in a line of its own, the connections, the name and the traffic of that one.
pub proof fn law_list_of_users_grows(
    a: &[(XrayUser, TrafficStats, u32)],
    b: &[(XrayUser, TrafficStats, u32)],
    x: (XrayUser, TrafficStats, u32),
    r: String,
    s: String,
)
    requires
        call_ensures(format_users_message, (a,), r),
        call_ensures(format_users_message, (b,), s),
        b@ == a@.push(x),
    ensures
        a@.len() == 0 ==> r@ == "No users found."@ && s@ == "👥 Users:"@ + "\n"@ + "\n"@ + (who(
            x.0,
            x.2,
        ) + " "@ + both_ways(x.1.uplink as nat, x.1.downlink as nat)),
        a@.len() > 0 ==> s@ == r@ + "\n"@ + (who(x.0, x.2) + " "@ + both_ways(
            x.1.uplink as nat,
            x.1.downlink as nat,
        )),
{
    let n = a@.len();
    let head = seq!["👥 Users:"@, Seq::<char>::empty()];
    let p = row_views(a@);
    let q = row_views(b@);
    let old_lines = head + Seq::new(p.len(), |i: int| user_line(p[i]));
    let new_lines = head + Seq::new(q.len(), |i: int| user_line(q[i]));
    assert(q[n as int] == row_view(x));
    assert(new_lines.drop_last() =~= old_lines) by {
        assert forall|i: int| 0 <= i < n implies #[trigger] p[i] == q[i] by {
            assert(b@[i] == a@[i]);
        }
    }
    let line = who(x.0, x.2) + " "@ + both_ways(x.1.uplink as nat, x.1.downlink as nat);
    assert(new_lines.last() =~= line);
    if n == 0 {
        assert(old_lines =~= head);
        assert(head.drop_last() =~= seq!["👥 Users:"@]);
        reveal_with_fuel(text::joined, 3);
        assert(text::joined(head, "\n"@) =~= "👥 Users:"@ + "\n"@);
    }
}

/// What the bridge has counted for a user, if anything: the first entry with its email.
pub open spec fn counted_for(bridge: Seq<(String, u64, u64)>, email: Seq<char>, k: int) -> bool {
    0 <= k < bridge.len() && bridge[k].0@ == email && forall|j: int|
        0 <= j < k ==> (#[trigger] bridge[j]).0@ != email
}

/// The bridge has counted nothing for a user.
pub open spec fn not_counted(bridge: Seq<(String, u64, u64)>, email: Seq<char>) -> bool {
    forall|j: int| 0 <= j < bridge.len() ==> (#[trigger] bridge[j]).0@ != email
}

proof fn lemma_server_line(
    users: Seq<(XrayUser, TrafficStats, u32)>,
    bridge: Seq<(String, u64, u64)>,
    i: int,
)
    requires
        0 <= i < users.len(),
        users[i].0.email@ != "bridge@vpn"@,
    ensures
        text::has_line(
            merged_text(row_views(users), bridge_client::traffic_views(bridge)),
            merged_line(row_view(users[i]), bridge_client::traffic_views(bridge)),
        ),
{
    let rows = row_views(users);
    let t = bridge_client::traffic_views(bridge);
    let p = not_bridge();
    let f = |row: (UserV, TrafficStats, u32)| merged_line(row, t);
    assert(rows[i] == row_view(users[i]));
    assert(p(rows[i]));
    rows.lemma_filter_contains(p, i);
    let kept = rows.filter(p);
    let k = kept.index_of(rows[i]);
    assert(kept[k] == rows[i]);
    let lines = merged_lines(rows, t);
    assert(kept.map_values(f)[k] == f(rows[i]));
    assert(lines[k] == merged_line(rows[i], t));
    let all = seq!["👥 Users:"@, Seq::empty()] + lines + seq![
        Seq::empty(),
        "🏠 bridge  ✈️ direct  🌐 both"@,
    ];
    assert(all[k + 2] == lines[k]);
    text::law_joined_lines_are_lines(all, k + 2);
}

/// **Traffic on the server and on the bridge are both shown, and of the same user.** The line of a
/// user that the bridge counts under its email has what it had on the server, if anything, and what
/// the bridge has counted for that very email.
pub proof fn law_traffic_of_both_is_shown(
    users: &[(XrayUser, TrafficStats, u32)],
    bridge: &[(String, u64, u64)],
    i: int,
    k: int,
    r: String,
)
    requires
        call_ensures(format_users_message_with_bridge, (users, bridge), r),
        0 <= i < users@.len(),
        users@[i].0.email@ != "bridge@vpn"@,
        counted_for(bridge@, users@[i].0.email@, k),
    ensures
        text::has_line(
            r@,
            who(users@[i].0, users@[i].2) + ": "@ + (if users@[i].1.uplink > 0
                || users@[i].1.downlink > 0 {
                both_ways(users@[i].1.uplink as nat, users@[i].1.downlink as nat) + " + "@
                    + both_ways(bridge@[k].1 as nat, bridge@[k].2 as nat)
            } else {
                both_ways(bridge@[k].1 as nat, bridge@[k].2 as nat)
            }) + " 🌐"@,
        ),
{
    let t = bridge_client::traffic_views(bridge@);
    let email = users@[i].0.email@;
    lemma_server_line(users@, bridge@, i);
    bridge_client::lemma_place(t, email, 0);
    assert(t[k].0 == email);
    let at = bridge_client::place(t, email, 0)->0;
    if at < k {
        assert(bridge@[at].0@ == t[at].0);
    }
    assert(at == k);
}

/// **A user that the bridge does not count has what it had on the server**, or a dash.
pub proof fn law_traffic_of_the_server_is_shown(
    users: &[(XrayUser, TrafficStats, u32)],
    bridge: &[(String, u64, u64)],
    i: int,
    r: String,
)
    requires
        call_ensures(format_users_message_with_bridge, (users, bridge), r),
        0 <= i < users@.len(),
        users@[i].0.email@ != "bridge@vpn"@,
        not_counted(bridge@, users@[i].0.email@),
    ensures
        text::has_line(
            r@,
            who(users@[i].0, users@[i].2) + ": "@ + (if users@[i].1.uplink > 0
                || users@[i].1.downlink > 0 {
                both_ways(users@[i].1.uplink as nat, users@[i].1.downlink as nat)
            } else {
                "—"@
            }) + (if bridge@.len() > 0 {
                " 🌐"@
            } else {
                " ✈️"@
            }),
        ),
{
    let t = bridge_client::traffic_views(bridge@);
    lemma_server_line(users@, bridge@, i);
    bridge_client::lemma_place(t, users@[i].0.email@, 0);
    if let Some(at) = bridge_client::place(t, users@[i].0.email@, 0) {
        assert(bridge@[at].0@ == t[at].0);
    }
}

/// **A user that only the bridge knows is listed too**, under its name and with what the bridge has
/// counted.
pub proof fn law_users_of_the_bridge_are_listed(
    users: &[(XrayUser, TrafficStats, u32)],
    bridge: &[(String, u64, u64)],
    k: int,
    name: Seq<char>,
    r: String,
)
    requires
        call_ensures(format_users_message_with_bridge, (users, bridge), r),
        0 <= k < bridge@.len(),
        bridge@[k].0@ == name + "@vpn"@,
        name != "bridge"@,
        forall|i: int|
            0 <= i < users@.len() ==> (#[trigger] users@[i]).0.email@ != bridge@[k].0@,
    ensures
        text::has_line(
            r@,
            "⚪ "@ + name + ": "@ + both_ways(bridge@[k].1 as nat, bridge@[k].2 as nat) + " 🏠"@,
        ),
{
    let rows = row_views(users@);
    let t = bridge_client::traffic_views(bridge@);
    let p = only_on_bridge(rows);
    let f = |x: (Seq<char>, nat, nat)| bridge_line(x);
    assert(name_of(bridge@[k].0@) == name) by {
        assert((name + "@vpn"@).take(name.len() as int) =~= name);
        assert("@vpn"@.is_suffix_of(name + "@vpn"@)) by {
            assert((name + "@vpn"@).subrange(name.len() as int, (name + "@vpn"@).len() as int)
                =~= "@vpn"@);
        }
    }
    assert(!knows(rows, t[k].0)) by {
        assert forall|i: int| 0 <= i < rows.len() implies (#[trigger] rows[i]).0.email
            != t[k].0 by {
            assert(rows[i].0.email == users@[i].0.email@);
        }
    }
    assert(p(t[k]));
    t.lemma_filter_contains(p, k);
    let kept = t.filter(p);
    let at = kept.index_of(t[k]);
    assert(kept.map_values(f)[at] == bridge_line(t[k]));
    let lines = merged_lines(rows, t);
    let m = lines.len() - kept.len() + at;
    assert(lines[m] == bridge_line(t[k]));
    let all = seq!["👥 Users:"@, Seq::empty()] + lines + seq![
        Seq::empty(),
        "🏠 bridge  ✈️ direct  🌐 both"@,
    ];
    assert(all[m + 2] == lines[m]);
    text::law_joined_lines_are_lines(all, m + 2);
}

/// **The account of the bridge is no user.** Whether it is among the users makes no difference to
/// the list.
pub proof fn law_account_of_the_bridge_is_not_listed(
    a: &[(XrayUser, TrafficStats, u32)],
    b: &[(XrayUser, TrafficStats, u32)],
    x: (XrayUser, TrafficStats, u32),
    bridge: &[(String, u64, u64)],
    r: String,
    s: String,
)
    requires
        call_ensures(format_users_message_with_bridge, (a, bridge), r),
        call_ensures(format_users_message_with_bridge, (b, bridge), s),
        b@ == a@.push(x),
        x.0.email@ == "bridge@vpn"@,
    ensures
        s@ == r@,
{
    let p = row_views(a@);
    let q = row_views(b@);
    assert(q =~= p.push(row_view(x)));
    seqs::lemma_filter_push(p, row_view(x), not_bridge());
    assert(name_of("bridge@vpn"@) == "bridge"@) by {
        reveal_strlit("bridge@vpn");
        reveal_strlit("bridge");
        reveal_strlit("@vpn");
        assert("bridge@vpn"@.subrange(6, 10) =~= "@vpn"@);
        assert("bridge@vpn"@.take(6) =~= "bridge"@);
    }
    let f = only_on_bridge(p);
    let g = only_on_bridge(q);
    assert forall|y: (Seq<char>, nat, nat)| #[trigger] f(y) == g(y) by {
        if knows(p, y.0) {
            let i = choose|i: int| 0 <= i < p.len() && (#[trigger] p[i]).0.email == y.0;
            assert(q[i] == p[i]);
        }
        if knows(q, y.0) {
            let i = choose|i: int| 0 <= i < q.len() && (#[trigger] q[i]).0.email == y.0;
            if i < p.len() {
                assert(q[i] == p[i]);
            }
        }
    }
    assert(f =~= g);
}

/// **A name is refused for what is wrong with it**, and only then: nothing in it, more than 50 bytes, a
/// control character, an at sign or the mark that parts the names of counters.
pub proof fn law_names_are_refused_for_a_reason(name: &str, r: Option<String>)
    requires
        call_ensures(validate_user_name, (name,), r),
    ensures
        text::trimmed(name@).len() == 0 ==> (r matches Some(m) && m@ == "Usage: /add <name>"@),
        text::trimmed(name@).len() > 0 && text::bytes(text::trimmed(name@)) > 50 ==> (r matches Some(
            m,
        ) && m@ == "Name too long (max 50 bytes)."@),
        text::trimmed(name@).len() > 0 && text::bytes(text::trimmed(name@)) <= 50 && (exists|i: int|
            0 <= i < text::trimmed(name@).len() && text::is_ctrl(#[trigger] text::trimmed(name@)[i]))
            ==> (r matches Some(m) && m@ == "Name must not contain control characters."@),
        text::trimmed(name@).len() > 0 && text::bytes(text::trimmed(name@)) <= 50 && (forall|i: int|
            0 <= i < text::trimmed(name@).len() ==> !text::is_ctrl(
                #[trigger] text::trimmed(name@)[i],
            )) && text::trimmed(name@).contains('@') ==> (r matches Some(m) && m@
            == "Name must not contain '@' or '>>>'."@),
        r is None ==> text::bytes(text::trimmed(name@)) <= 50 && !text::trimmed(name@).contains(
            '@',
        ) && (forall|i: int|
            0 <= i < text::trimmed(name@).len() ==> !text::is_ctrl(
                #[trigger] text::trimmed(name@)[i],
            )) && forall|i: int|
            0 <= i < text::trimmed(name@).len() - 2 ==> !(#[trigger] text::trimmed(name@)[i] == '>'
                && text::trimmed(name@)[i + 1] == '>' && text::trimmed(name@)[i + 2] == '>'),
        text::trimmed(name@).len() > 0 && text::bytes(text::trimmed(name@)) <= 50 && (forall|i: int|
            0 <= i < text::trimmed(name@).len() ==> (#[trigger] text::trimmed(name@)[i]) != '@'
                && text::trimmed(name@)[i] != '>' && !text::is_ctrl(text::trimmed(name@)[i]))
            ==> r is None,
{
    let t = text::trimmed(name@);
    reveal_strlit(">>>");
    text::lemma_find_from(t, ">>>"@, 0);
    if r is None {
        assert forall|i: int| 0 <= i < t.len() - 2 implies !(#[trigger] t[i] == '>' && t[i + 1]
            == '>' && t[i + 2] == '>') by {
            if t[i] == '>' && t[i + 1] == '>' && t[i + 2] == '>' {
                assert(t.subrange(i, i + 3) =~= ">>>"@);
                assert(text::matches_at(t, ">>>"@, i));
            }
        }
    }
    if text::has(t, ">>>"@) {
        let k = text::find(t, ">>>"@)->0;
        assert(t.subrange(k, k + 3)[0] == '>');
        assert(t[k] == '>');
    }
}

/// **The state of the server says what was found**: the version and whether a newer one is there, how
/// many users there are and are online, and the traffic.
pub proof fn law_status_is_shown(
    info: ServerInfo,
    users: usize,
    online: usize,
    uptime: &str,
    latest: Option<&str>,
    r: String,
)
    requires
        call_ensures(format_status_message, (&info, users, online, uptime, latest), r),
    ensures
        text::has_line(
            r@,
            "Users: "@ + decimal::dec(users as nat) + " ("@ + decimal::dec(online as nat)
                + " online)"@,
        ),
        text::has_line(r@, "Upload: "@ + display::bytes_text(info.uplink as nat)),
        text::has_line(r@, "Download: "@ + display::bytes_text(info.downlink as nat)),
        uptime@.len() > 0 ==> text::has_line(r@, "Uptime: "@ + uptime@),
        latest is None ==> text::has_line(r@, "Xray: v"@ + info.version@),
        latest matches Some(l) ==> (l@ == info.version@ ==> text::has_line(
            r@,
            "Xray: v"@ + info.version@ + " ✅"@,
        )),
        latest matches Some(l) ==> (l@ != info.version@ ==> text::has_line(
            r@,
            "Xray: v"@ + info.version@ + " (⬆️ v"@ + l@ + " available)"@,
        )),
{
    let head = seq!["📊 Server Status:"@, Seq::empty(), version_line(
        info.version@,
        opt_str(latest),
    )];
    let middle = if uptime@.len() == 0 {
        Seq::empty()
    } else {
        seq!["Uptime: "@ + uptime@]
    };
    let tail = seq![
        "Users: "@ + decimal::dec(users as nat) + " ("@ + decimal::dec(online as nat)
            + " online)"@,
        "Upload: "@ + display::bytes_text(info.uplink as nat),
        "Download: "@ + display::bytes_text(info.downlink as nat),
    ];
    let all = head + middle + tail;
    let n = (head + middle).len() as int;
    assert(all[2] == head[2]);
    assert(all[n] == tail[0] && all[n + 1] == tail[1] && all[n + 2] == tail[2]);
    text::law_joined_lines_are_lines(all, 2);
    text::law_joined_lines_are_lines(all, n);
    text::law_joined_lines_are_lines(all, n + 1);
    text::law_joined_lines_are_lines(all, n + 2);
    if uptime@.len() > 0 {
        assert(all[3] == middle[0]);
        text::law_joined_lines_are_lines(all, 3);
    }
}

/// **What is said of one user holds what it is about**: its name, its id and its URLs, each in its
/// place.
pub proof fn law_messages_about_a_user(
    name: &str,
    uuid: &str,
    bridge_url: &str,
    direct_url: &str,
    added: String,
    asked: String,
    deleted: String,
    one: String,
    both: String,
)
    requires
        call_ensures(format_add_message, (name, uuid, bridge_url, direct_url), added),
        call_ensures(format_delete_confirm_message, (name,), asked),
        call_ensures(format_delete_success_message, (name,), deleted),
        call_ensures(format_url_message, (name, direct_url), one),
        call_ensures(format_urls, (bridge_url, direct_url), both),
    ensures
        added@ == "✅ User '"@ + name@ + "' added.\n\nUUID: "@ + uuid@ + "\n\n"@ + both@,
        asked@ == "⚠️ Delete user '"@ + name@ + "'?\n\nThis will revoke their access immediately."@,
        deleted@ == "🗑 User '"@ + name@ + "' deleted."@,
        one@ == "🔗 "@ + name@ + " URL:\n\n<pre>"@ + direct_url@ + "</pre>"@,
        both@ == "🏠 Для России:\n<pre>"@ + bridge_url@ + "</pre>\n\n✈️ Из-за рубежа:\n<pre>"@
            + direct_url@ + "</pre>"@,
{
}

/// **Everybody but the administrator is told that access is denied**, and no more.
pub proof fn law_fixed_messages(denied: String, welcome: String, help: String)
    requires
        call_ensures(access_denied_text, (), denied),
        call_ensures(welcome_text, (), welcome),
        call_ensures(help_text, (), help),
    ensures
        denied@ == "Access denied. Contact the server administrator."@,
        welcome@ == "Welcome, admin!\n\nUse /help to see available commands."@,
        help@
            == "Commands:\n/add <name> - Add user\n/del <name> - Delete user\n/config <name> - Get connection config\n/qr <name> - Get QR code\n/users - List users\n/status - Server info\n/snapshot - Create backup\n/upgrade - Upgrade Xray"@,
{
}

} // verus!
