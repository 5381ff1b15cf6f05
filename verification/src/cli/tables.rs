//! The lines that the command line prints.

use crate::decimal;
use crate::decimal::u64_text;
use crate::display;
use crate::display::{call, format_bytes, pad, rule, short_id};
use crate::text;
use crate::text::{cat2, cat3, cat5, join, no_texts, push_text, same};
use crate::work::SnapshotInfo;
use crate::xray::client::ServerInfo;
use crate::xray::table;
use crate::xray::types::{TrafficStats, UserV, XrayUser};
use vstd::prelude::*;

verus! {

/// Whether a user is online, and how often.
pub open spec fn online_cell(n: nat) -> Seq<char> {
    if n > 0 {
        "● "@ + decimal::dec(n)
    } else {
        "○"@
    }
}

fn online_text(n: u32) -> (r: String)
    ensures
        r@ == online_cell(n as nat),
{
    if n > 0 {
        cat2("● ", &u64_text(n as u64))
    } else {
        "○".to_owned()
    }
}

// ---- users ----

/// The columns of the list of users.
pub open spec fn user_columns(
    name: Seq<char>,
    uuid: Seq<char>,
    up: Seq<char>,
    down: Seq<char>,
    online: Seq<char>,
) -> Seq<char> {
    display::padded(name, 30) + " "@ + display::padded(uuid, 10) + " "@ + display::padded(up, 12)
        + " "@ + display::padded(down, 12) + " "@ + display::padded(online, 8)
}

/// The line of a user.
pub open spec fn user_row(row: (UserV, TrafficStats, u32)) -> Seq<char> {
    user_columns(
        display::called(row.0.name, row.0.uuid),
        display::short(row.0.uuid),
        display::bytes_text(row.1.uplink as nat),
        display::bytes_text(row.1.downlink as nat),
        online_cell(row.2 as nat),
    )
}

/// The list of users.
pub open spec fn users_table(rows: Seq<(UserV, TrafficStats, u32)>) -> Seq<Seq<char>> {
    if rows.len() == 0 {
        seq!["No users found."@]
    } else {
        seq![
            user_columns("NAME"@, "UUID"@, "UPLOAD"@, "DOWNLOAD"@, "ONLINE"@),
            display::dashes(72),
        ] + Seq::new(rows.len(), |i: int| user_row(rows[i]))
    }
}

fn columns(name: &str, uuid: &str, up: &str, down: &str, online: &str) -> (r: String)
    ensures
        r@ == user_columns(name@, uuid@, up@, down@, online@),
{
    let mut s = cat5(&pad(name, 30), " ", &pad(uuid, 10), " ", &pad(up, 12));
    s.append(" ");
    s.append(&pad(down, 12));
    s.append(" ");
    s.append(&pad(online, 8));
    s
}

/// The users with their traffic; what could not be had is what the user has.
pub open spec fn with_stats(
    users: Seq<UserV>,
    t: Seq<(Option<TrafficStats>, Option<u32>)>,
) -> Seq<(UserV, TrafficStats, u32)> {
    Seq::new(
        users.len(),
        |i: int|
            (
                users[i],
                match t[i].0 {
                    Some(s) => s,
                    None => users[i].stats,
                },
                match t[i].1 {
                    Some(n) => n,
                    None => users[i].online_count,
                },
            ),
    )
}

/// Lists users with their traffic.
pub fn list_users(
    users: &Vec<XrayUser>,
    t: &Vec<(Option<TrafficStats>, Option<u32>)>,
) -> (r: Vec<String>)
    requires
        users@.len() == t@.len(),
    ensures
        text::texts(r@) == users_table(with_stats(table::user_views(users@), t@)),
{
    let ghost rows = with_stats(table::user_views(users@), t@);
    let mut lines = no_texts();
    if users.len() == 0 {
        push_text(&mut lines, "No users found.".to_owned());
        assert(text::texts(lines@) =~= users_table(rows));
        return lines;
    }
    push_text(&mut lines, columns("NAME", "UUID", "UPLOAD", "DOWNLOAD", "ONLINE"));
    push_text(&mut lines, rule(72));
    let ghost head = text::texts(lines@);
    let mut i: usize = 0;
    while i < users.len()
        invariant
            users@.len() == t@.len(),
            rows == with_stats(table::user_views(users@), t@),
            i <= users@.len(),
            text::texts(lines@) =~= head + Seq::new(i as nat, |j: int| user_row(rows[j])),
        decreases users.len() - i,
    {
        let u = &users[i];
        let stats = match t[i].0 {
            Some(s) => s,
            None => u.stats,
        };
        let online: u32 = match t[i].1 {
            Some(n) => n,
            None => u.online_count,
        };
        let line = columns(
            &call(&u.name, &u.uuid),
            &short_id(&u.uuid),
            &format_bytes(stats.uplink),
            &format_bytes(stats.downlink),
            &online_text(online),
        );
        assert(line@ == user_row(rows[i as int]));
        push_text(&mut lines, line);
        i += 1;
    }
    assert(text::texts(lines@) =~= users_table(rows));
    lines
}

// ---- connections ----

/// A number that could not be had counts as none.
pub open spec fn known(n: Option<u32>) -> u32 {
    match n {
        Some(x) => x,
        None => 0,
    }
}

/// The emails of the users that are online.
pub open spec fn online_emails(users: Seq<UserV>, counts: Seq<Option<u32>>) -> Seq<Seq<char>>
    decreases users.len(),
{
    if users.len() == 0 || counts.len() == 0 {
        Seq::empty()
    } else {
        let before = online_emails(users.drop_last(), counts.drop_last());
        if known(counts.last()) > 0 {
            before.push(users.last().email)
        } else {
            before
        }
    }
}

/// The emails of the users that are online.
pub fn who_is_online(users: &Vec<XrayUser>, counts: &Vec<Option<u32>>) -> (r: Vec<String>)
    requires
        users@.len() == counts@.len(),
    ensures
        text::texts(r@) == online_emails(table::user_views(users@), counts@),
{
    let ghost all = table::user_views(users@);
    let mut r = no_texts();
    let mut i: usize = 0;
    while i < users.len()
        invariant
            users@.len() == counts@.len(),
            all == table::user_views(users@),
            i <= users@.len(),
            text::texts(r@) == online_emails(all.take(i as int), counts@.take(i as int)),
        decreases users.len() - i,
    {
        assert(all.take(i + 1).drop_last() =~= all.take(i as int));
        assert(counts@.take(i + 1).drop_last() =~= counts@.take(i as int));
        let n: u32 = match counts[i] {
            Some(x) => x,
            None => 0,
        };
        if n > 0 {
            push_text(&mut r, users[i].email.clone());
        }
        i += 1;
    }
    assert(all.take(i as int) =~= all);
    assert(counts@.take(i as int) =~= counts@);
    r
}

/// The addresses of a user; a dash where there are none.
pub open spec fn ips_cell(ips: Option<Vec<String>>) -> Seq<char> {
    match ips {
        Some(v) => if v@.len() == 0 {
            "-"@
        } else {
            text::joined(text::texts(v@), ", "@)
        },
        None => "-"@,
    }
}

/// The columns of the list of connections.
pub open spec fn online_columns(name: Seq<char>, online: Seq<char>, ips: Seq<char>) -> Seq<char> {
    display::padded(name, 30) + " "@ + display::padded(online, 8) + " "@ + ips
}

/// The lines of users. The addresses are those of the users that are online, in their order.
pub open spec fn online_rows(
    users: Seq<UserV>,
    counts: Seq<Option<u32>>,
    ips: Seq<Option<Vec<String>>>,
) -> Seq<Seq<char>>
    decreases users.len(),
{
    if users.len() == 0 || counts.len() == 0 {
        Seq::empty()
    } else {
        let u = users.last();
        let n = known(counts.last());
        let before = online_rows(users.drop_last(), counts.drop_last(), ips);
        let at = online_emails(users.drop_last(), counts.drop_last()).len() as int;
        before.push(
            online_columns(
                display::called(u.name, u.uuid),
                online_cell(n as nat),
                if n > 0 {
                    ips_cell(ips[at])
                } else {
                    "-"@
                },
            ),
        )
    }
}

/// The list of connections.
pub open spec fn online_table(
    users: Seq<UserV>,
    counts: Seq<Option<u32>>,
    ips: Seq<Option<Vec<String>>>,
) -> Seq<Seq<char>> {
    seq![online_columns("NAME"@, "ONLINE"@, "IPs"@), display::dashes(60)] + online_rows(
        users,
        counts,
        ips,
    )
}

fn ips_text(ips: &Option<Vec<String>>) -> (r: String)
    ensures
        r@ == ips_cell(*ips),
{
    match ips {
        Some(v) => if v.len() == 0 {
            "-".to_owned()
        } else {
            join(v, ", ")
        },
        None => "-".to_owned(),
    }
}

proof fn lemma_online_emails(users: Seq<UserV>, counts: Seq<Option<u32>>, i: int)
    requires
        users.len() == counts.len(),
        0 <= i <= users.len(),
    ensures
        online_emails(users.take(i), counts.take(i)).len() <= online_emails(users, counts).len(),
        i < users.len() && known(counts[i]) > 0 ==> online_emails(
            users.take(i),
            counts.take(i),
        ).len() < online_emails(users, counts).len(),
    decreases users.len() - i,
{
    if i < users.len() {
        lemma_online_emails(users, counts, i + 1);
        assert(users.take(i + 1).drop_last() =~= users.take(i));
        assert(counts.take(i + 1).drop_last() =~= counts.take(i));
    } else {
        assert(users.take(i) =~= users);
        assert(counts.take(i) =~= counts);
    }
}

/// Lists who is connected, and from where.
pub fn list_online(
    users: &Vec<XrayUser>,
    counts: &Vec<Option<u32>>,
    ips: &Vec<Option<Vec<String>>>,
) -> (r: Vec<String>)
    requires
        users@.len() == counts@.len(),
        ips@.len() == online_emails(table::user_views(users@), counts@).len(),
    ensures
        text::texts(r@) == online_table(table::user_views(users@), counts@, ips@),
{
    let ghost all = table::user_views(users@);
    let mut lines = no_texts();
    push_text(&mut lines, cat5(&pad("NAME", 30), " ", &pad("ONLINE", 8), " ", "IPs"));
    push_text(&mut lines, rule(60));
    let ghost head = text::texts(lines@);
    let mut at: usize = 0;
    let mut i: usize = 0;
    while i < users.len()
        invariant
            users@.len() == counts@.len(),
            all == table::user_views(users@),
            ips@.len() == online_emails(all, counts@).len(),
            i <= users@.len(),
            at == online_emails(all.take(i as int), counts@.take(i as int)).len(),
            at <= i,
            text::texts(lines@) =~= head + online_rows(
                all.take(i as int),
                counts@.take(i as int),
                ips@,
            ),
        decreases users.len() - i,
    {
        proof {
            assert(all.take(i + 1).drop_last() =~= all.take(i as int));
            assert(counts@.take(i + 1).drop_last() =~= counts@.take(i as int));
            lemma_online_emails(all, counts@, i as int);
        }
        let u = &users[i];
        let n: u32 = match counts[i] {
            Some(x) => x,
            None => 0,
        };
        let from = if n > 0 {
            at += 1;
            ips_text(&ips[at - 1])
        } else {
            "-".to_owned()
        };
        let line = cat5(
            &pad(&call(&u.name, &u.uuid), 30),
            " ",
            &pad(&online_text(n), 8),
            " ",
            &from,
        );
        push_text(&mut lines, line);
        i += 1;
    }
    assert(all.take(i as int) =~= all);
    assert(counts@.take(i as int) =~= counts@);
    assert(text::texts(lines@) =~= online_table(all, counts@, ips@));
    lines
}

/// The rows before a user do not change when more users follow.
proof fn lemma_online_row(
    users: Seq<UserV>,
    counts: Seq<Option<u32>>,
    ips: Seq<Option<Vec<String>>>,
    i: int,
)
    requires
        users.len() == counts.len(),
        0 <= i < users.len(),
    ensures
        online_rows(users, counts, ips).len() == users.len(),
        online_rows(users, counts, ips)[i] == online_columns(
            display::called(users[i].name, users[i].uuid),
            online_cell(known(counts[i]) as nat),
            if known(counts[i]) > 0 {
                ips_cell(ips[online_emails(users.take(i), counts.take(i)).len() as int])
            } else {
                "-"@
            },
        ),
    decreases users.len(),
{
    reveal_with_fuel(online_rows, 2);
    if i < users.len() - 1 {
        lemma_online_row(users.drop_last(), counts.drop_last(), ips, i);
        assert(users.drop_last().take(i) =~= users.take(i));
        assert(counts.drop_last().take(i) =~= counts.take(i));
    } else {
        if users.len() > 1 {
            lemma_online_row(users.drop_last(), counts.drop_last(), ips, i - 1);
        }
        assert(users.take(i) =~= users.drop_last());
        assert(counts.take(i) =~= counts.drop_last());
    }
}

/// How many of the first `i` users are online.
pub open spec fn online_before(counts: Seq<Option<u32>>, i: int) -> nat
    decreases i,
{
    if i <= 0 {
        0
    } else {
        online_before(counts, i - 1) + if counts[i - 1] matches Some(n) && n > 0 {
            1nat
        } else {
            0nat
        }
    }
}

proof fn lemma_online_before(users: Seq<UserV>, counts: Seq<Option<u32>>, i: int)
    requires
        users.len() == counts.len(),
        0 <= i <= users.len(),
    ensures
        online_emails(users.take(i), counts.take(i)).len() == online_before(counts, i),
    decreases i,
{
    if i > 0 {
        lemma_online_before(users, counts, i - 1);
        assert(users.take(i).drop_last() =~= users.take(i - 1));
        assert(counts.take(i).drop_last() =~= counts.take(i - 1));
    }
}

proof fn lemma_online_email(users: Seq<UserV>, counts: Seq<Option<u32>>, i: int)
    requires
        users.len() == counts.len(),
        0 <= i < users.len(),
        counts[i] matches Some(n) && n > 0,
    ensures
        online_before(counts, i) < online_emails(users, counts).len(),
        online_emails(users, counts)[online_before(counts, i) as int] == users[i].email,
    decreases users.len(),
{
    lemma_online_before(users, counts, i);
    if i < users.len() - 1 {
        lemma_online_before_of(counts, counts.drop_last(), i);
        lemma_online_email(users.drop_last(), counts.drop_last(), i);
    } else {
        assert(users.take(i) =~= users.drop_last());
        assert(counts.take(i) =~= counts.drop_last());
    }
}

proof fn lemma_online_before_of(a: Seq<Option<u32>>, b: Seq<Option<u32>>, i: int)
    requires
        0 <= i <= b.len() <= a.len(),
        forall|j: int| 0 <= j < i ==> #[trigger] a[j] == b[j],
    ensures
        online_before(a, i) == online_before(b, i),
    decreases i,
{
    if i > 0 {
        lemma_online_before_of(a, b, i - 1);
    }
}

/// **Every user is shown with its own addresses.** Addresses are asked for by the emails of the users
/// that are online, in their order: with `k` users online before the one in row `i`, its email is
/// the `k`-th, and its row ends in the `k`-th list of addresses, or in a dash where that is empty or
/// could not be had. A user that is not online is not asked for, and its row ends in a dash.
pub proof fn law_addresses_are_the_users_own(
    users: Vec<XrayUser>,
    counts: Vec<Option<u32>>,
    ips: Vec<Option<Vec<String>>>,
    emails: Vec<String>,
    r: Vec<String>,
    i: int,
)
    requires
        users@.len() == counts@.len(),
        ips@.len() == emails@.len(),
        call_ensures(who_is_online, (&users, &counts), emails),
        call_ensures(list_online, (&users, &counts, &ips), r),
        0 <= i < users@.len(),
    ensures
        r@.len() == users@.len() + 2,
        match counts@[i] {
            Some(n) => n > 0 ==> {
                let k = online_before(counts@, i) as int;
                &&& k < emails@.len()
                &&& emails@[k]@ == users@[i].email@
                &&& match ips@[k] {
                    Some(v) => ends_in(
                        r@[i + 2]@,
                        if v@.len() > 0 {
                            text::joined(text::texts(v@), ", "@)
                        } else {
                            "-"@
                        },
                    ),
                    None => ends_in(r@[i + 2]@, "-"@),
                }
            },
            None => ends_in(r@[i + 2]@, "-"@),
        },
        counts@[i] == Some(0u32) ==> ends_in(r@[i + 2]@, "-"@),
        emails@.len() == online_before(counts@, users@.len() as int),
{
    let all = table::user_views(users@);
    lemma_online_row(all, counts@, ips@, i);
    lemma_online_before(all, counts@, i);
    lemma_online_before(all, counts@, all.len() as int);
    assert(all.take(all.len() as int) =~= all);
    assert(counts@.take(all.len() as int) =~= counts@);
    assert(text::texts(emails@).len() == emails@.len());
    assert(text::texts(r@).len() == r@.len());
    assert(text::texts(r@)[i + 2] == r@[i + 2]@);
    assert(text::texts(r@)[i + 2] == online_rows(all, counts@, ips@)[i]);
    let line = r@[i + 2]@;
    let name = display::called(all[i].name, all[i].uuid);
    let cell = online_cell(known(counts@[i]) as nat);
    if known(counts@[i]) > 0 {
        lemma_online_email(all, counts@, i);
        let k = online_before(counts@, i) as int;
        assert(text::texts(emails@)[k] == emails@[k]@);
        lemma_ends_in(name, cell, ips_cell(ips@[k]));
    } else {
        lemma_ends_in(name, cell, "-"@);
    }
}

/// The line is something, a blank and then that text.
pub open spec fn ends_in(line: Seq<char>, t: Seq<char>) -> bool {
    exists|head: Seq<char>| line == #[trigger] (head + seq![' ']) + t
}

proof fn lemma_ends_in(name: Seq<char>, online: Seq<char>, t: Seq<char>)
    ensures
        ends_in(online_columns(name, online, t), t),
{
    reveal_strlit(" ");
    let head = display::padded(name, 30) + " "@ + display::padded(online, 8);
    assert(" "@ =~= seq![' ']);
    assert(online_columns(name, online, t) == (head + seq![' ']) + t);
}

// ---- server ----

/// Whether the API of the server is up.
pub open spec fn api_state(ok: bool, version: Seq<char>) -> Seq<char> {
    if ok {
        "enabled"@
    } else if version != "unknown"@ {
        "degraded (version ok, stats API unreachable)"@
    } else {
        "unknown"@
    }
}

/// The version that runs, and how it stands to the newest one.
pub open spec fn version_shown(version: Seq<char>, latest: Option<Seq<char>>) -> Seq<char> {
    match latest {
        Some(l) => if l != version {
            "v"@ + version + " (update available: v"@ + l + ")"@
        } else {
            "v"@ + version + " (latest)"@
        },
        None => "v"@ + version,
    }
}

/// What is printed of the server.
pub open spec fn server_lines(
    info: ServerInfo,
    users: nat,
    api_ok: bool,
    uptime: Seq<char>,
    latest: Option<Seq<char>>,
) -> Seq<Seq<char>> {
    seq![
        "Xray:           "@ + version_shown(info.version@, latest),
        "API status:     "@ + api_state(api_ok, info.version@),
        "Uptime:         "@ + (if uptime.len() == 0 {
            "unknown"@
        } else {
            uptime
        }),
        "Users:          "@ + decimal::dec(users),
        "Total upload:   "@ + display::bytes_text(info.uplink as nat),
        "Total download: "@ + display::bytes_text(info.downlink as nat),
    ]
}

/// What is printed of the server.
pub fn show_server(
    info: &ServerInfo,
    users: usize,
    api_ok: bool,
    uptime: &str,
    latest: &Option<String>,
) -> (r: Vec<String>)
    ensures
        text::texts(r@) == server_lines(
            *info,
            users as nat,
            api_ok,
            uptime@,
            text::opt_text(*latest),
        ),
{
    let version = match latest {
        Some(l) => if !same(l, &info.version) {
            cat5("v", &info.version, " (update available: v", l, ")")
        } else {
            cat3("v", &info.version, " (latest)")
        },
        None => cat2("v", &info.version),
    };
    let api: &str = if api_ok {
        "enabled"
    } else if !same(&info.version, "unknown") {
        "degraded (version ok, stats API unreachable)"
    } else {
        "unknown"
    };
    let up: &str = if text::is_empty(uptime) {
        "unknown"
    } else {
        uptime
    };
    let mut lines = no_texts();
    push_text(&mut lines, cat2("Xray:           ", &version));
    push_text(&mut lines, cat2("API status:     ", api));
    push_text(&mut lines, cat2("Uptime:         ", up));
    push_text(&mut lines, cat2("Users:          ", &u64_text(users as u64)));
    push_text(&mut lines, cat2("Total upload:   ", &format_bytes(info.uplink)));
    push_text(&mut lines, cat2("Total download: ", &format_bytes(info.downlink)));
    assert(text::texts(lines@) =~= server_lines(
        *info,
        users as nat,
        api_ok,
        uptime@,
        text::opt_text(*latest),
    ));
    lines
}

/// The line of a check of the server.
pub open spec fn check_line(ok: bool, users: nat, version: Seq<char>) -> Seq<char> {
    (if ok {
        "API enabled, "@
    } else {
        "API degraded (stats API unreachable), "@
    }) + decimal::dec(users) + " users, xray v"@ + version
}

/// The line of a check of the server.
pub fn show_check(ok: bool, users: usize, version: &str) -> (r: String)
    ensures
        r@ == check_line(ok, users as nat, version@),
{
    let mut s = cat3(
        if ok {
            "API enabled, "
        } else {
            "API degraded (stats API unreachable), "
        },
        &u64_text(users as u64),
        " users, xray v",
    );
    s.append(version);
    s
}

// ---- snapshots ----

/// The columns of the list of snapshots.
pub open spec fn snapshot_columns(tag: Seq<char>, version: Seq<char>, users: Seq<char>) -> Seq<
    char,
> {
    display::padded(tag, 20) + " "@ + display::padded(version, 20) + " "@ + display::padded(
        users,
        10,
    )
}

/// The list of snapshots.
pub open spec fn snapshots_table(v: Seq<SnapshotInfo>) -> Seq<Seq<char>> {
    if v.len() == 0 {
        seq!["No snapshots found."@]
    } else {
        seq![
            snapshot_columns("TAG"@, "XRAY VERSION"@, "USERS"@),
            display::dashes(50),
        ] + Seq::new(
            v.len(),
            |i: int|
                snapshot_columns(
                    v[i].tag@,
                    v[i].version@,
                    decimal::dec(v[i].users_count as nat),
                ),
        )
    }
}

fn snapshot_line(tag: &str, version: &str, users: &str) -> (r: String)
    ensures
        r@ == snapshot_columns(tag@, version@, users@),
{
    cat5(&pad(tag, 20), " ", &pad(version, 20), " ", &pad(users, 10))
}

/// Lists snapshots.
pub fn list_snapshots(v: &Vec<SnapshotInfo>) -> (r: Vec<String>)
    ensures
        text::texts(r@) == snapshots_table(v@),
{
    let mut lines = no_texts();
    if v.len() == 0 {
        push_text(&mut lines, "No snapshots found.".to_owned());
        assert(text::texts(lines@) =~= snapshots_table(v@));
        return lines;
    }
    push_text(&mut lines, snapshot_line("TAG", "XRAY VERSION", "USERS"));
    push_text(&mut lines, rule(50));
    let ghost head = text::texts(lines@);
    let ghost f = |j: int|
        snapshot_columns(v@[j].tag@, v@[j].version@, decimal::dec(v@[j].users_count as nat));
    let mut i: usize = 0;
    while i < v.len()
        invariant
            f == (|j: int|
                snapshot_columns(
                    v@[j].tag@,
                    v@[j].version@,
                    decimal::dec(v@[j].users_count as nat),
                )),
            i <= v@.len(),
            text::texts(lines@) =~= head + Seq::new(i as nat, f),
        decreases v.len() - i,
    {
        push_text(
            &mut lines,
            snapshot_line(&v[i].tag, &v[i].version, &u64_text(v[i].users_count as u64)),
        );
        i += 1;
    }
    assert(text::texts(lines@) =~= snapshots_table(v@));
    lines
}

// ---- laws ----

/// **Every user is listed with its own figures.** Row `i` shows what user `i` is called, how its id
/// begins, its upload, its download and its connections, in that order: what was got for it, else
/// what it had.
pub proof fn law_figures_are_the_users_own(
    users: Vec<XrayUser>,
    t: Vec<(Option<TrafficStats>, Option<u32>)>,
    r: Vec<String>,
    i: int,
)
    requires
        users@.len() == t@.len(),
        call_ensures(list_users, (&users, &t), r),
        0 <= i < users@.len(),
    ensures
        r@.len() == users@.len() + 2,
        ({
            let u = users@[i];
            let up = match t@[i].0 {
                Some(s) => s.uplink,
                None => u.stats.uplink,
            };
            let down = match t@[i].0 {
                Some(s) => s.downlink,
                None => u.stats.downlink,
            };
            let n = match t@[i].1 {
                Some(n) => n,
                None => u.online_count,
            };
            r@[i + 2]@ == display::padded(display::called(u.name@, u.uuid@), 30) + " "@
                + display::padded(text::fitted(u.uuid@, 8), 10) + " "@ + display::padded(
                display::bytes_text(up as nat),
                12,
            ) + " "@ + display::padded(display::bytes_text(down as nat), 12) + " "@
                + display::padded(
                if n > 0 {
                    "● "@ + decimal::dec(n as nat)
                } else {
                    "○"@
                },
                8,
            )
        }),
{
    let rows = with_stats(table::user_views(users@), t@);
    assert(text::texts(r@).len() == r@.len());
    assert(text::texts(r@)[i + 2] == r@[i + 2]@);
    assert(users_table(rows)[i + 2] == user_row(rows[i]));
    assert(rows[i].0 == users@[i]@);
}

/// **Every user is listed with its own connections**: the row begins with what the user is called,
/// and then gives its number of connections.
pub proof fn law_connections_are_the_users_own(
    users: Vec<XrayUser>,
    counts: Vec<Option<u32>>,
    ips: Vec<Option<Vec<String>>>,
    r: Vec<String>,
    i: int,
)
    requires
        users@.len() == counts@.len(),
        ips@.len() == online_emails(table::user_views(users@), counts@).len(),
        call_ensures(list_online, (&users, &counts, &ips), r),
        0 <= i < users@.len(),
    ensures
        (display::padded(display::called(users@[i].name@, users@[i].uuid@), 30) + " "@
            + display::padded(
            match counts@[i] {
                Some(n) => if n > 0 {
                    "● "@ + decimal::dec(n as nat)
                } else {
                    "○"@
                },
                None => "○"@,
            },
            8,
        ) + " "@).is_prefix_of(r@[i + 2]@),
{
    let all = table::user_views(users@);
    lemma_online_row(all, counts@, ips@, i);
    assert(text::texts(r@).len() == r@.len());
    assert(text::texts(r@)[i + 2] == r@[i + 2]@);
    assert(text::texts(r@)[i + 2] == online_rows(all, counts@, ips@)[i]);
    let name = display::called(all[i].name, all[i].uuid);
    let cell = online_cell(known(counts@[i]) as nat);
    let head = display::padded(name, 30) + " "@ + display::padded(cell, 8) + " "@;
    assert(r@[i + 2]@.subrange(0, head.len() as int) =~= head);
}

/// **What is printed of the server is what was got of it**: its version and whether a newer one is
/// there, whether its API is up, for how long it has been up, its users, its upload and its download.
pub proof fn law_server_is_shown(
    info: ServerInfo,
    users: usize,
    api_ok: bool,
    uptime: &str,
    latest: Option<String>,
    r: Vec<String>,
)
    requires
        call_ensures(show_server, (&info, users, api_ok, uptime, &latest), r),
    ensures
        r@.len() == 6,
        r@[0]@ == "Xray:           "@ + (match latest {
            Some(l) => if l@ == info.version@ {
                "v"@ + info.version@ + " (latest)"@
            } else {
                "v"@ + info.version@ + " (update available: v"@ + l@ + ")"@
            },
            None => "v"@ + info.version@,
        }),
        r@[1]@ == "API status:     "@ + (if api_ok {
            "enabled"@
        } else if info.version@ == "unknown"@ {
            "unknown"@
        } else {
            "degraded (version ok, stats API unreachable)"@
        }),
        r@[2]@ == "Uptime:         "@ + (if uptime@.len() > 0 {
            uptime@
        } else {
            "unknown"@
        }),
        r@[3]@ == "Users:          "@ + decimal::dec(users as nat),
        r@[4]@ == "Total upload:   "@ + display::bytes_text(info.uplink as nat),
        r@[5]@ == "Total download: "@ + display::bytes_text(info.downlink as nat),
{
    let t = text::texts(r@);
    assert(t.len() == r@.len());
    assert(t[0] == r@[0]@ && t[1] == r@[1]@ && t[2] == r@[2]@ && t[3] == r@[3]@ && t[4] == r@[4]@
        && t[5] == r@[5]@);
}

/// **A check says what was found**: whether the API is up, how many users there are and which version
/// runs.
pub proof fn law_check_is_shown(ok: bool, users: usize, version: &str, r: String)
    requires
        call_ensures(show_check, (ok, users, version), r),
    ensures
        r@ == (if ok {
            "API enabled, "@
        } else {
            "API degraded (stats API unreachable), "@
        }) + decimal::dec(users as nat) + " users, xray v"@ + version@,
{
}

/// **Every snapshot is listed with its own version and users**, in order.
pub proof fn law_snapshots_are_listed(v: Vec<SnapshotInfo>, r: Vec<String>, i: int)
    requires
        call_ensures(list_snapshots, (&v,), r),
        0 <= i < v@.len(),
    ensures
        r@.len() == v@.len() + 2,
        r@[i + 2]@ == display::padded(v@[i].tag@, 20) + " "@ + display::padded(v@[i].version@, 20)
            + " "@ + display::padded(decimal::dec(v@[i].users_count as nat), 10),
{
    let t = text::texts(r@);
    assert(t.len() == r@.len());
    assert(t[i + 2] == r@[i + 2]@);
    assert(snapshots_table(v@)[i + 2] == snapshot_columns(
        v@[i].tag@,
        v@[i].version@,
        decimal::dec(v@[i].users_count as nat),
    ));
}

} // verus!
